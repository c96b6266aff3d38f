//! The `shuffle` command: the members of the lobby are shuffled and dealt
//! out to freshly made team channels.

use crate::commands::options::{integer_at, integer_option, Interaction, InteractionView};
use crate::commands::surface::{
    integer, integer_spec, spec_views, CommandSpec, CommandSpecView,
};
use crate::text::{decimal_digits, push_decimal_u64};
use crate::{Handler, HandlerView};
use rand::seq::SliceRandom;
use vstd::math::min;
use vstd::prelude::*;
use vstd::string::*;

verus! {

/// The size of a full team when `members` members are dealt out to `teams`
/// teams: the quotient, rounded up.
pub open spec fn chunk_size(members: nat, teams: nat) -> nat {
    if teams == 0 {
        0
    } else if members % teams == 0 {
        members / teams
    } else {
        members / teams + 1
    }
}

/// The members of team `team`, counted from zero: the roster is cut into
/// stretches of `chunk_size` members, and team `team` gets the stretch of
/// that number, which is shorter or empty where the roster ends.
pub open spec fn group(roster: Seq<u64>, teams: nat, team: int) -> Seq<u64> {
    let size = chunk_size(roster.len(), teams) as int;
    let len = roster.len() as int;
    roster.subrange(min(team * size, len), min((team + 1) * size, len))
}

/// The roster dealt out to `teams` teams, in the order of the teams.
pub open spec fn partitioned(roster: Seq<u64>, teams: nat) -> Seq<Seq<u64>> {
    Seq::new(teams, |team: int| group(roster, teams, team))
}

/// The teams as sequences of members.
pub open spec fn groups_view(groups: Seq<Vec<u64>>) -> Seq<Seq<u64>> {
    Seq::new(groups.len(), |team: int| groups[team]@)
}

/// Full teams hold everyone: `teams` stretches of `chunk_size` members reach
/// the end of the roster.
pub proof fn chunks_cover_roster(members: nat, teams: nat)
    requires
        teams >= 1,
    ensures
        teams * chunk_size(members, teams) >= members,
        members >= 1 ==> chunk_size(members, teams) >= 1,
        chunk_size(members, teams) <= members,
{
    let q = members / teams;
    let r = members % teams;
    assert(members == teams * q + r && 0 <= r < teams) by (nonlinear_arith)
        requires
            teams >= 1,
            q == members / teams,
            r == members % teams,
    ;
    assert(teams * (q + 1) == teams * q + teams) by (nonlinear_arith);
    assert(teams * q >= q) by (nonlinear_arith)
        requires
            teams >= 1,
            q >= 0,
    ;
}

/// The size of each team: a full stretch as long as the roster lasts, then
/// what is left of it, then nothing.
pub proof fn group_sizes(roster: Seq<u64>, teams: nat, team: int)
    requires
        0 <= team,
    ensures
        group(roster, teams, team).len() == min(
            chunk_size(roster.len(), teams) as int,
            vstd::math::max(0, roster.len() - team * chunk_size(roster.len(), teams)),
        ),
        group(roster, teams, team).len() <= chunk_size(roster.len(), teams),
{
    let size = chunk_size(roster.len(), teams) as int;
    assert((team + 1) * size == team * size + size) by (nonlinear_arith);
    assert(team * size >= 0) by (nonlinear_arith)
        requires
            team >= 0,
            size >= 0,
    ;
}

/// Every member is dealt to exactly the team that its place in the roster
/// gives: the member at place `place` is in team `place / chunk_size`, at
/// place `place % chunk_size` there, and that team is one of the `teams`.
pub proof fn member_is_in_its_group(roster: Seq<u64>, teams: nat, place: int)
    requires
        teams >= 1,
        0 <= place < roster.len(),
    ensures
        0 <= place / (chunk_size(roster.len(), teams) as int) < teams,
        0 <= place % (chunk_size(roster.len(), teams) as int) < group(
            roster,
            teams,
            place / (chunk_size(roster.len(), teams) as int),
        ).len(),
        group(roster, teams, place / (chunk_size(roster.len(), teams) as int))[place % (chunk_size(
            roster.len(),
            teams,
        ) as int)] == roster[place],
{
    let size = chunk_size(roster.len(), teams) as int;
    let len = roster.len() as int;
    chunks_cover_roster(roster.len(), teams);
    let team = place / size;
    let offset = place % size;
    assert(place == size * team + offset && 0 <= offset < size && team >= 0) by (nonlinear_arith)
        requires
            size >= 1,
            place >= 0,
            team == place / size,
            offset == place % size,
    ;
    assert(team < teams) by (nonlinear_arith)
        requires
            place == size * team + offset,
            offset >= 0,
            place < len,
            teams * size >= len,
            size >= 1,
            team >= 0,
    ;
    assert((team + 1) * size == team * size + size) by (nonlinear_arith);
    assert(team * size == size * team) by (nonlinear_arith);
}

/// The teams, one after the other, are the roster: nobody is left out, and
/// nobody is dealt twice.
pub proof fn partition_keeps_roster(roster: Seq<u64>, teams: nat)
    requires
        teams >= 1,
    ensures
        partitioned(roster, teams).len() == teams,
        partitioned(roster, teams).flatten() == roster,
        partitioned(roster, teams).flatten().to_multiset() == roster.to_multiset(),
{
    chunks_cover_roster(roster.len(), teams);
    first_groups_are_a_prefix(roster, teams, teams);
    let size = chunk_size(roster.len(), teams) as int;
    assert(partitioned(roster, teams) =~= Seq::new(teams, |team: int| group(roster, teams, team)));
    assert(teams * size == (teams as int) * size);
    assert(roster.subrange(0, roster.len() as int) =~= roster);
}

/// The first `count` teams, one after the other, are the roster up to where
/// the last of them ends.
proof fn first_groups_are_a_prefix(roster: Seq<u64>, teams: nat, count: nat)
    ensures
        Seq::new(count, |team: int| group(roster, teams, team)).flatten() == roster.subrange(
            0,
            min(count * (chunk_size(roster.len(), teams) as int), roster.len() as int),
        ),
    decreases count,
{
    let size = chunk_size(roster.len(), teams) as int;
    let len = roster.len() as int;
    let groups = Seq::new(count, |team: int| group(roster, teams, team));
    if count == 0 {
        assert(groups.flatten() =~= roster.subrange(0, 0));
    } else {
        let before = Seq::new((count - 1) as nat, |team: int| group(roster, teams, team));
        first_groups_are_a_prefix(roster, teams, (count - 1) as nat);
        assert(groups =~= before.push(group(roster, teams, count - 1)));
        before.lemma_flatten_push(group(roster, teams, count - 1));
        assert(((count - 1) + 1) * size == (count - 1) * size + size) by (nonlinear_arith);
        assert((count - 1) * size >= 0) by (nonlinear_arith)
            requires
                count >= 1,
                size >= 0,
        ;
        assert(roster.subrange(0, min((count - 1) * size, len)) + roster.subrange(
            min((count - 1) * size, len),
            min(count * size, len),
        ) =~= roster.subrange(0, min(count * size, len)));
    }
}

/// The size of a full team, computed.
pub fn team_size(members: usize, teams: usize) -> (size: usize)
    ensures
        size == chunk_size(members as nat, teams as nat),
{
    if teams == 0 {
        0
    } else if members % teams == 0 {
        members / teams
    } else {
        proof {
            chunks_cover_roster(members as nat, teams as nat);
        }
        members / teams + 1
    }
}

/// Deals the roster out to `n_teams` teams: stretches of `team_size` members
/// in the roster's order, the last of them shorter where the roster ends, and
/// empty teams after that.
pub fn partition(roster: &Vec<u64>, n_teams: usize) -> (groups: Vec<Vec<u64>>)
    ensures
        groups_view(groups@) == partitioned(roster@, n_teams as nat),
        groups@.len() == n_teams,
        forall|team: int|
            0 <= team < n_teams ==> (#[trigger] groups@[team])@ == group(
                roster@,
                n_teams as nat,
                team,
            ),
{
    let len: usize = roster.len();
    let size: usize = team_size(len, n_teams);
    let mut groups: Vec<Vec<u64>> = Vec::new();
    let mut start: usize = 0;
    let mut team: usize = 0;
    while team < n_teams
        invariant
            team <= n_teams,
            len == roster@.len(),
            size == chunk_size(len as nat, n_teams as nat),
            start == min(team * size, len as int),
            groups@.len() == team,
            forall|k: int|
                0 <= k < team ==> (#[trigger] groups@[k])@ == group(roster@, n_teams as nat, k),
        decreases n_teams - team,
    {
        let end: usize = if len - start < size {
            len
        } else {
            start + size
        };
        proof {
            assert((team + 1) * size == team * size + size) by (nonlinear_arith);
            assert(end == min((team + 1) * size, len as int));
        }
        let mut members: Vec<u64> = Vec::new();
        let mut place: usize = start;
        while place < end
            invariant
                start <= place <= end <= len,
                len == roster@.len(),
                members@ == roster@.subrange(start as int, place as int),
            decreases end - place,
        {
            members.push(roster[place]);
            place = place + 1;
            assert(members@ =~= roster@.subrange(start as int, place as int));
        }
        groups.push(members);
        start = end;
        team = team + 1;
    }
    assert(groups_view(groups@) =~= partitioned(roster@, n_teams as nat));
    groups
}

/// A channel of the guild and the category that it stands under.
#[derive(Debug, Clone, Copy)]
pub struct ChannelInfo {
    pub id: u64,
    pub parent_id: Option<u64>,
}

/// The order to move one member to one voice channel.
#[derive(Debug, Clone, Copy, PartialEq, Eq, Structural)]
pub struct Move {
    pub member: u64,
    pub channel: u64,
}

/// Whether `channel` is a team channel of an earlier shuffle: it stands
/// under the shuffle category and is not the lobby.
pub open spec fn is_stale(channel: ChannelInfo, category: u64, lobby: u64) -> bool {
    channel.parent_id == Some(category) && channel.id != lobby
}

/// The channels to delete, in the order of the listing.
pub open spec fn stale_channels(channels: Seq<ChannelInfo>, category: u64, lobby: u64) -> Seq<u64> {
    channels.filter(|channel: ChannelInfo| is_stale(channel, category, lobby)).map_values(
        |channel: ChannelInfo| channel.id,
    )
}

/// Whether the listing holds the lobby under the shuffle category.
pub open spec fn lobby_is_listed(channels: Seq<ChannelInfo>, category: u64, lobby: u64) -> bool {
    exists|i: int|
        0 <= i < channels.len() && (#[trigger] channels[i]).parent_id == Some(category)
            && channels[i].id == lobby
}

/// The moves that deal the roster out: the member at each place goes to the
/// channel of the team that the place falls in. Without a team nobody moves.
pub open spec fn planned_moves(roster: Seq<u64>, teams: Seq<u64>) -> Seq<Move> {
    if teams.len() == 0 {
        Seq::empty()
    } else {
        Seq::new(
            roster.len(),
            |place: int|
                Move {
                    member: roster[place],
                    channel: teams[place / (chunk_size(roster.len(), teams.len()) as int)],
                },
        )
    }
}

/// Every member of every team is moved to the channel of that team, team
/// after team and, within a team, in the roster's order.
pub proof fn every_member_moves_to_its_team(
    roster: Seq<u64>,
    teams: Seq<u64>,
    team: int,
    place: int,
)
    requires
        0 <= team < teams.len(),
        0 <= place < group(roster, teams.len(), team).len(),
    ensures
        planned_moves(roster, teams).len() == roster.len(),
        0 <= team * chunk_size(roster.len(), teams.len()) + place < roster.len(),
        planned_moves(roster, teams)[team * chunk_size(roster.len(), teams.len()) + place] == (Move {
            member: group(roster, teams.len(), team)[place],
            channel: teams[team],
        }),
{
    let size = chunk_size(roster.len(), teams.len()) as int;
    let at = team * size + place;
    group_sizes(roster, teams.len(), team);
    assert((team + 1) * size == team * size + size) by (nonlinear_arith);
    assert(team * size >= 0) by (nonlinear_arith)
        requires
            team >= 0,
            size >= 0,
    ;
    assert(at / size == team && at % size == place) by (nonlinear_arith)
        requires
            at == team * size + place,
            0 <= place < size,
    ;
}

/// The moves that deal the roster out, computed.
pub fn plan_moves(roster: &Vec<u64>, teams: &Vec<u64>) -> (moves: Vec<Move>)
    ensures
        moves@ == planned_moves(roster@, teams@),
{
    let mut moves: Vec<Move> = Vec::new();
    if teams.len() == 0 {
        return moves;
    }
    let len: usize = roster.len();
    let size: usize = team_size(len, teams.len());
    let mut place: usize = 0;
    while place < len
        invariant
            place <= len,
            len == roster@.len(),
            teams@.len() >= 1,
            size == chunk_size(len as nat, teams@.len()),
            moves@ == planned_moves(roster@, teams@).subrange(0, place as int),
        decreases len - place,
    {
        proof {
            chunks_cover_roster(len as nat, teams@.len());
            member_is_in_its_group(roster@, teams@.len(), place as int);
        }
        moves.push(Move { member: roster[place], channel: teams[place / size] });
        place = place + 1;
        assert(moves@ =~= planned_moves(roster@, teams@).subrange(0, place as int));
    }
    assert(moves@ =~= planned_moves(roster@, teams@));
    moves
}

/// `SliceRandom::shuffle` of the `rand` crate with the thread's generator
/// `rand::rng()`: the slice is permuted in place. Which permutation comes
/// out is left open; the members are the same, each as often as before.
#[verifier::external_body]
fn shuffle_members(members: &mut Vec<u64>)
    ensures
        final(members)@.to_multiset() == old(members)@.to_multiset(),
{
    members.shuffle(&mut rand::rng());
}

/// The resolver waits for the listing of the guild's channels.
#[derive(Debug, Clone, Copy)]
pub struct AfterChannels {
    pub n_teams: u64,
}

/// The resolver waits to hear whether a stale channel was deleted; `next` is
/// the place in `stale` of the channel to delete after it.
#[derive(Debug)]
pub struct AfterDelete {
    pub stale: Vec<u64>,
    pub next: usize,
    pub lobby_listed: bool,
    pub n_teams: u64,
}

pub struct AfterDeleteView {
    pub stale: Seq<u64>,
    pub next: int,
    pub lobby_listed: bool,
    pub n_teams: u64,
}

impl View for AfterDelete {
    type V = AfterDeleteView;

    open spec fn view(&self) -> AfterDeleteView {
        AfterDeleteView {
            stale: self.stale@,
            next: self.next as int,
            lobby_listed: self.lobby_listed,
            n_teams: self.n_teams,
        }
    }
}

/// The resolver waits for the members of the lobby.
#[derive(Debug, Clone, Copy)]
pub struct AfterLobby {
    pub n_teams: u64,
}

/// The resolver waits for a new team channel; `teams` are the channels made
/// so far.
#[derive(Debug)]
pub struct AfterCreate {
    pub n_teams: u64,
    pub roster: Vec<u64>,
    pub teams: Vec<u64>,
}

pub struct AfterCreateView {
    pub n_teams: u64,
    pub roster: Seq<u64>,
    pub teams: Seq<u64>,
}

impl View for AfterCreate {
    type V = AfterCreateView;

    open spec fn view(&self) -> AfterCreateView {
        AfterCreateView { n_teams: self.n_teams, roster: self.roster@, teams: self.teams@ }
    }
}

/// The resolver waits to hear of a move; `next` is the place in `moves` of
/// the move to make after it.
#[derive(Debug)]
pub struct AfterMove {
    pub moves: Vec<Move>,
    pub next: usize,
    pub n_teams: u64,
}

pub struct AfterMoveView {
    pub moves: Seq<Move>,
    pub next: int,
    pub n_teams: u64,
}

impl View for AfterMove {
    type V = AfterMoveView;

    open spec fn view(&self) -> AfterMoveView {
        AfterMoveView { moves: self.moves@, next: self.next as int, n_teams: self.n_teams }
    }
}

/// What the resolver asks its caller to do next. Every variant but `Reply`
/// names one outside call and holds the state to resume with its answer;
/// `Reply` ends the interaction.
#[derive(Debug)]
#[allow(inconsistent_fields)]
pub enum Step {
    /// List the channels of the guild.
    ListChannels { then: AfterChannels },
    DeleteChannel { channel: u64, then: AfterDelete },
    /// Read who is in the voice channel `channel`.
    ReadLobby { channel: u64, then: AfterLobby },
    /// Make a voice channel of this name under `category`.
    CreateChannel { name: String, category: u64, then: AfterCreate },
    MoveMember { member: u64, channel: u64, then: AfterMove },
    /// Answer the interaction with `message`.
    Reply { message: String },
}

#[allow(inconsistent_fields)]
pub enum StepView {
    ListChannels { then: AfterChannels },
    DeleteChannel { channel: u64, then: AfterDeleteView },
    ReadLobby { channel: u64, then: AfterLobby },
    CreateChannel { name: Seq<char>, category: u64, then: AfterCreateView },
    MoveMember { member: u64, channel: u64, then: AfterMoveView },
    Reply { message: Seq<char> },
}

impl View for Step {
    type V = StepView;

    open spec fn view(&self) -> StepView {
        match *self {
            Step::ListChannels { then } => StepView::ListChannels { then },
            Step::DeleteChannel { channel, then } => StepView::DeleteChannel { channel, then: then@ },
            Step::ReadLobby { channel, then } => StepView::ReadLobby { channel, then },
            Step::CreateChannel { name, category, then } => StepView::CreateChannel {
                name: name@,
                category,
                then: then@,
            },
            Step::MoveMember { member, channel, then } => StepView::MoveMember {
                member,
                channel,
                then: then@,
            },
            Step::Reply { message } => StepView::Reply { message: message@ },
        }
    }
}

/// The reply to an interaction without a usable number of teams.
pub open spec fn invalid_count() -> Seq<char> {
    "Please provide a valid ID"@
}

/// The reply when the lobby is empty.
pub open spec fn nobody() -> Seq<char> {
    "There is nobody in the lobby"@
}

/// The name of the team channel of the given number, counted from one.
pub open spec fn team_name(number: nat) -> Seq<char> {
    "team "@ + decimal_digits(number)
}

/// The reply after the members were dealt out.
pub open spec fn shuffled_into(n_teams: nat) -> Seq<char> {
    "Shuffling into "@ + decimal_digits(n_teams) + " teams"@
}

/// What an answer of the platform is to the resolver: the value, or the
/// error as text.
pub open spec fn answer_view<T>(answer: Result<T, String>) -> Result<T, Seq<char>> {
    match answer {
        Ok(value) => Ok(value),
        Err(error) => Err(error@),
    }
}

/// The members that were read, or the error as text.
pub open spec fn members_view(answer: Result<Vec<u64>, String>) -> Result<Seq<u64>, Seq<char>> {
    match answer {
        Ok(members) => Ok(members@),
        Err(error) => Err(error@),
    }
}

/// The number of teams that the interaction asks for: its first option, an
/// integer that is at least one.
pub open spec fn team_count(command: InteractionView) -> Option<u64> {
    match integer_at(command.options, 0) {
        Some(n) => if n >= 1 {
            Some(n as u64)
        } else {
            None
        },
        None => None,
    }
}

/// The first step of a `shuffle` interaction: the channels are listed, or
/// the interaction is turned away for want of a number of teams.
pub open spec fn started(command: InteractionView) -> StepView {
    match team_count(command) {
        Some(n_teams) => StepView::ListChannels { then: AfterChannels { n_teams } },
        None => StepView::Reply { message: invalid_count() },
    }
}

/// The step of the cleanup at place `next` of the stale channels: the next
/// of them is deleted; after the last the lobby is read, if it was listed;
/// if not, nobody is in it.
pub open spec fn cleaning(
    stale: Seq<u64>,
    next: int,
    lobby_listed: bool,
    n_teams: u64,
    lobby: u64,
) -> StepView {
    if 0 <= next < stale.len() {
        StepView::DeleteChannel {
            channel: stale[next],
            then: AfterDeleteView { stale, next: next + 1, lobby_listed, n_teams },
        }
    } else if lobby_listed {
        StepView::ReadLobby { channel: lobby, then: AfterLobby { n_teams } }
    } else {
        StepView::Reply { message: nobody() }
    }
}

/// The step that makes the team channel after `teams`.
pub open spec fn creating(n_teams: u64, roster: Seq<u64>, teams: Seq<u64>, category: u64) -> StepView {
    StepView::CreateChannel {
        name: team_name(teams.len() + 1),
        category,
        then: AfterCreateView { n_teams, roster, teams },
    }
}

/// The step of the dealing at place `next` of the moves: the next move is
/// made; after the last the interaction is answered.
pub open spec fn moving(moves: Seq<Move>, next: int, n_teams: u64) -> StepView {
    if 0 <= next < moves.len() {
        StepView::MoveMember {
            member: moves[next].member,
            channel: moves[next].channel,
            then: AfterMoveView { moves, next: next + 1, n_teams },
        }
    } else {
        StepView::Reply { message: shuffled_into(n_teams as nat) }
    }
}

impl AfterChannels {
    /// Every channel under the shuffle category but the lobby is deleted, in
    /// the order of the listing.
    pub open spec fn resumed(self, handler: HandlerView, channels: Seq<ChannelInfo>) -> StepView {
        let category = handler.shuffle_category_id;
        let lobby = handler.lobby_channel_id;
        cleaning(
            stale_channels(channels, category, lobby),
            0,
            lobby_is_listed(channels, category, lobby),
            self.n_teams,
            lobby,
        )
    }

    pub fn resume(self, handler: &Handler, channels: Vec<ChannelInfo>) -> (step: Step)
        ensures
            step@ == self.resumed(handler@, channels@),
    {
        let category = handler.shuffle_category_id();
        let lobby = handler.lobby_channel_id();
        let mut stale: Vec<u64> = Vec::new();
        let mut lobby_listed = false;
        let mut i: usize = 0;
        while i < channels.len()
            invariant
                i <= channels@.len(),
                stale@ == stale_channels(channels@.take(i as int), category, lobby),
                lobby_listed == lobby_is_listed(channels@.take(i as int), category, lobby),
            decreases channels@.len() - i,
        {
            let channel = channels[i];
            proof {
                listing_grows(channels@.take(i as int), channel, category, lobby);
                assert(channels@.take(i as int).push(channel) =~= channels@.take(i + 1));
            }
            let under_category = match channel.parent_id {
                Some(parent) => parent == category,
                None => false,
            };
            if under_category {
                if channel.id != lobby {
                    stale.push(channel.id);
                } else {
                    lobby_listed = true;
                }
            }
            i = i + 1;
        }
        assert(channels@.take(i as int) =~= channels@);
        clean(stale, 0, lobby_listed, self.n_teams, lobby)
    }
}

/// What one more channel at the end of a listing adds: it joins the stale
/// channels if it is one, and the lobby is listed if it is the lobby under
/// the category or was listed before.
proof fn listing_grows(before: Seq<ChannelInfo>, channel: ChannelInfo, category: u64, lobby: u64)
    ensures
        stale_channels(before.push(channel), category, lobby) == (if is_stale(
            channel,
            category,
            lobby,
        ) {
            stale_channels(before, category, lobby).push(channel.id)
        } else {
            stale_channels(before, category, lobby)
        }),
        lobby_is_listed(before.push(channel), category, lobby) <==> lobby_is_listed(
            before,
            category,
            lobby,
        ) || (channel.parent_id == Some(category) && channel.id == lobby),
{
    let now = before.push(channel);
    let stale_filter = |channel: ChannelInfo| is_stale(channel, category, lobby);
    assert(now.drop_last() =~= before);
    reveal(Seq::filter);
    assert(now.filter(stale_filter) == if stale_filter(channel) {
        before.filter(stale_filter).push(channel)
    } else {
        before.filter(stale_filter)
    });
    assert(stale_channels(now, category, lobby) =~= if is_stale(channel, category, lobby) {
        stale_channels(before, category, lobby).push(channel.id)
    } else {
        stale_channels(before, category, lobby)
    });
    if lobby_is_listed(before, category, lobby) {
        let k = choose|k: int|
            0 <= k < before.len() && (#[trigger] before[k]).parent_id == Some(category)
                && before[k].id == lobby;
        assert(now[k] == before[k]);
    }
    if channel.parent_id == Some(category) && channel.id == lobby {
        assert(now[before.len() as int] == channel);
    }
    if lobby_is_listed(now, category, lobby) {
        let k = choose|k: int|
            0 <= k < now.len() && (#[trigger] now[k]).parent_id == Some(category) && now[k].id
                == lobby;
        if k < before.len() {
            assert(before[k] == now[k]);
        }
    }
}

/// Names the step of the cleanup at place `next`.
fn clean(
    stale: Vec<u64>,
    next: usize,
    lobby_listed: bool,
    n_teams: u64,
    lobby: u64,
) -> (step: Step)
    ensures
        step@ == cleaning(stale@, next as int, lobby_listed, n_teams, lobby),
{
    if next < stale.len() {
        Step::DeleteChannel {
            channel: stale[next],
            then: AfterDelete { stale, next: next + 1, lobby_listed, n_teams },
        }
    } else if lobby_listed {
        Step::ReadLobby { channel: lobby, then: AfterLobby { n_teams } }
    } else {
        Step::Reply { message: String::from_str("There is nobody in the lobby") }
    }
}

impl AfterDeleteView {
    /// A failed deletion ends the interaction with its error; after a
    /// deletion the cleanup goes on.
    pub open spec fn resumed(self, handler: HandlerView, answer: Result<(), Seq<char>>) -> StepView {
        match answer {
            Err(error) => StepView::Reply { message: error },
            Ok(_) => cleaning(
                self.stale,
                self.next,
                self.lobby_listed,
                self.n_teams,
                handler.lobby_channel_id,
            ),
        }
    }
}

impl AfterDelete {
    pub fn resume(self, handler: &Handler, answer: Result<(), String>) -> (step: Step)
        ensures
            step@ == self@.resumed(handler@, answer_view(answer)),
    {
        match answer {
            Err(error) => Step::Reply { message: error },
            Ok(_) => clean(
                self.stale,
                self.next,
                self.lobby_listed,
                self.n_teams,
                handler.lobby_channel_id(),
            ),
        }
    }
}

impl AfterLobby {
    /// With nobody in the lobby the interaction ends, and no channel is
    /// made. Else the first team channel is made. An error is replied as it
    /// is.
    pub open spec fn resumed(self, handler: HandlerView, answer: Result<Seq<u64>, Seq<char>>) -> StepView {
        match answer {
            Err(error) => StepView::Reply { message: error },
            Ok(roster) => if roster.len() == 0 {
                StepView::Reply { message: nobody() }
            } else {
                creating(self.n_teams, roster, Seq::empty(), handler.shuffle_category_id)
            },
        }
    }

    pub fn resume(self, handler: &Handler, answer: Result<Vec<u64>, String>) -> (step: Step)
        ensures
            step@ == self.resumed(handler@, members_view(answer)),
    {
        match answer {
            Err(error) => Step::Reply { message: error },
            Ok(roster) => if roster.len() == 0 {
                Step::Reply { message: String::from_str("There is nobody in the lobby") }
            } else {
                create(self.n_teams, roster, Vec::new(), handler.shuffle_category_id())
            },
        }
    }
}

/// Names the step that makes the team channel after `teams`.
fn create(n_teams: u64, roster: Vec<u64>, teams: Vec<u64>, category: u64) -> (step: Step)
    requires
        teams@.len() < u64::MAX,
    ensures
        step@ == creating(n_teams, roster@, teams@, category),
{
    let mut name = String::from_str("team ");
    push_decimal_u64(&mut name, teams.len() as u64 + 1);
    Step::CreateChannel { name, category, then: AfterCreate { n_teams, roster, teams } }
}

impl AfterCreateView {
    /// A failed creation ends the interaction with its error; the channels
    /// made so far stay. After a creation the next team channel is made, until
    /// there are `n_teams`; then the roster, shuffled to `shuffled`, is dealt
    /// out to them.
    pub open spec fn resumed(
        self,
        handler: HandlerView,
        answer: Result<u64, Seq<char>>,
        shuffled: Seq<u64>,
    ) -> StepView {
        match answer {
            Err(error) => StepView::Reply { message: error },
            Ok(channel) => if self.teams.len() + 1 < self.n_teams {
                creating(
                    self.n_teams,
                    self.roster,
                    self.teams.push(channel),
                    handler.shuffle_category_id,
                )
            } else {
                moving(planned_moves(shuffled, self.teams.push(channel)), 0, self.n_teams)
            },
        }
    }
}

/// Names the first step of dealing the shuffled roster out to the teams.
pub fn deal(shuffled: &Vec<u64>, teams: &Vec<u64>, n_teams: u64) -> (step: Step)
    ensures
        step@ == moving(planned_moves(shuffled@, teams@), 0, n_teams),
{
    make_move(plan_moves(shuffled, teams), 0, n_teams)
}

impl AfterCreate {
    /// Resumes after a team channel was asked for. Once the last one is made
    /// the roster is shuffled; the step is then the first of dealing out some
    /// arrangement of the roster's members.
    pub fn resume(self, handler: &Handler, answer: Result<u64, String>) -> (step: Step)
        ensures
            exists|shuffled: Seq<u64>|
                shuffled.to_multiset() == self.roster@.to_multiset() && step@
                    == #[trigger] self@.resumed(handler@, answer_view(answer), shuffled),
    {
        match answer {
            Err(error) => {
                let step = Step::Reply { message: error };
                assert(step@ == self@.resumed(handler@, answer_view(answer), self.roster@));
                step
            },
            Ok(channel) => {
                let ghost before = self@;
                let n_teams = self.n_teams;
                let mut teams = self.teams;
                let mut roster = self.roster;
                teams.push(channel);
                if (teams.len() as u64) < n_teams {
                    let step = create(n_teams, roster, teams, handler.shuffle_category_id());
                    assert(step@ == before.resumed(handler@, answer_view(answer), before.roster));
                    step
                } else {
                    shuffle_members(&mut roster);
                    let step = deal(&roster, &teams, n_teams);
                    assert(step@ == before.resumed(handler@, answer_view(answer), roster@));
                    step
                }
            },
        }
    }
}

/// Names the step of the dealing at place `next`.
fn make_move(moves: Vec<Move>, next: usize, n_teams: u64) -> (step: Step)
    ensures
        step@ == moving(moves@, next as int, n_teams),
{
    if next < moves.len() {
        let next_move = moves[next];
        Step::MoveMember {
            member: next_move.member,
            channel: next_move.channel,
            then: AfterMove { moves, next: next + 1, n_teams },
        }
    } else {
        let mut message = String::from_str("Shuffling into ");
        push_decimal_u64(&mut message, n_teams);
        message.append(" teams");
        Step::Reply { message }
    }
}

impl AfterMoveView {
    /// Whether or not the member could be moved, the dealing goes on.
    pub open spec fn resumed(self, answer: Result<(), Seq<char>>) -> StepView {
        moving(self.moves, self.next, self.n_teams)
    }
}

impl AfterMove {
    pub fn resume(self, answer: Result<(), String>) -> (step: Step)
        ensures
            step@ == self@.resumed(answer_view(answer)),
    {
        make_move(self.moves, self.next, self.n_teams)
    }
}

/// Begins a `shuffle` interaction: reads the number of teams and asks for
/// the channels of the guild.
pub fn run(command: &Interaction, handler: &Handler) -> (step: Step)
    ensures
        step@ == started(command@),
{
    match integer_option(&command.options, 0) {
        Some(n) => if n >= 1 {
            Step::ListChannels { then: AfterChannels { n_teams: n as u64 } }
        } else {
            Step::Reply { message: String::from_str("Please provide a valid ID") }
        },
        None => Step::Reply { message: String::from_str("Please provide a valid ID") },
    }
}

/// The command `shuffle`, as it is registered: its one option is the number
/// of teams, from 2 to 10.
pub open spec fn registered() -> CommandSpecView {
    CommandSpecView {
        name: "shuffle"@,
        description: "Shuffle users to different voice channels. Useful for playing against eachother in random teams"@,
        options: seq![integer_spec("n_teams"@, "Number of teams"@, Some(2), Some(10))],
    }
}

/// The shape in which `shuffle` is registered with the platform.
pub fn register() -> (command: CommandSpec)
    ensures
        command@ == registered(),
{
    let options = vec![integer("n_teams", "Number of teams", Some(2), Some(10))];
    assert(spec_views(options@) =~= registered().options);
    CommandSpec {
        name: String::from_str("shuffle"),
        description: String::from_str(
            "Shuffle users to different voice channels. Useful for playing against eachother in random teams",
        ),
        options,
    }
}

} // verus!
