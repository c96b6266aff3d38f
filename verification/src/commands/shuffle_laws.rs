//! What a `shuffle` interaction comes to, whatever the platform answers.

use crate::commands::options::InteractionView;
use crate::commands::shuffle::{
    cleaning, creating, lobby_is_listed, moving, nobody, partition_keeps_roster, partitioned,
    planned_moves, registered, shuffled_into, stale_channels, started, team_count, team_name,
    ChannelInfo, Move, StepView,
};
use crate::commands::surface::{interaction_fits, options_fit, value_fits};
use crate::HandlerView;
use vstd::prelude::*;

verus! {

/// What the platform answers to each call, and how the roster comes out of
/// the shuffle.
pub struct World {
    pub channels: Seq<ChannelInfo>,
    pub delete: spec_fn(u64) -> Result<(), Seq<char>>,
    pub lobby: Result<Seq<u64>, Seq<char>>,
    pub create: spec_fn(Seq<char>) -> Result<u64, Seq<char>>,
    pub shuffle: spec_fn(Seq<u64>) -> Seq<u64>,
    pub moved: spec_fn(Move) -> Result<(), Seq<char>>,
}

/// What an interaction came to: the channels that were asked to be deleted,
/// the names of the channels that were asked to be made, the moves that were
/// asked for, each in their order, and the reply.
pub struct Outcome {
    pub deleted: Seq<u64>,
    pub created: Seq<Seq<char>>,
    pub moves: Seq<Move>,
    pub reply: Seq<char>,
}

/// The interaction that ends with `reply` and asks for nothing.
pub open spec fn replied(reply: Seq<char>) -> Outcome {
    Outcome { deleted: Seq::empty(), created: Seq::empty(), moves: Seq::empty(), reply }
}

/// The length of the roster as it comes out of the shuffle, where the lobby
/// can be read.
pub open spec fn shuffled_len(world: World) -> nat {
    match world.lobby {
        Ok(roster) => (world.shuffle)(roster).len(),
        Err(_) => 0,
    }
}

/// How many of `total` are left from `done` on.
pub open spec fn left(total: int, done: int) -> nat {
    if done < total {
        (total - done) as nat
    } else {
        0
    }
}

/// A bound on the number of steps that follow `step`.
pub open spec fn steps_left(step: StepView, handler: HandlerView, world: World) -> nat {
    match step {
        StepView::Reply { .. } => 0,
        StepView::MoveMember { then, .. } => 1 + left(then.moves.len() as int, then.next),
        StepView::CreateChannel { then, .. } => 2 + (world.shuffle)(then.roster).len() + left(
            then.n_teams as int,
            then.teams.len() as int,
        ),
        StepView::ReadLobby { then, .. } => 3 + shuffled_len(world) + then.n_teams as nat,
        StepView::DeleteChannel { then, .. } => 4 + shuffled_len(world) + then.n_teams as nat + left(
            then.stale.len() as int,
            then.next,
        ),
        StepView::ListChannels { then } => 5 + shuffled_len(world) + then.n_teams as nat
            + stale_channels(
            world.channels,
            handler.shuffle_category_id,
            handler.lobby_channel_id,
        ).len(),
    }
}

/// What the interaction comes to from `step` on, when every call that the
/// resolver asks for is made and answered as `world` says, and the roster is
/// shuffled as `world` says.
pub open spec fn outcome(step: StepView, handler: HandlerView, world: World) -> Outcome
    decreases steps_left(step, handler, world),
{
    match step {
        StepView::Reply { message } => replied(message),
        StepView::ListChannels { then } => outcome(
            then.resumed(handler, world.channels),
            handler,
            world,
        ),
        StepView::DeleteChannel { channel, then } => {
            let rest = outcome(then.resumed(handler, (world.delete)(channel)), handler, world);
            Outcome { deleted: seq![channel] + rest.deleted, ..rest }
        },
        StepView::ReadLobby { channel, then } => outcome(
            then.resumed(handler, world.lobby),
            handler,
            world,
        ),
        StepView::CreateChannel { name, category, then } => {
            let rest = outcome(
                then.resumed(handler, (world.create)(name), (world.shuffle)(then.roster)),
                handler,
                world,
            );
            Outcome { created: seq![name] + rest.created, ..rest }
        },
        StepView::MoveMember { member, channel, then } => {
            let rest = outcome(
                then.resumed((world.moved)(Move { member, channel })),
                handler,
                world,
            );
            Outcome { moves: seq![Move { member, channel }] + rest.moves, ..rest }
        },
    }
}

/// What a `shuffle` interaction comes to.
pub open spec fn shuffled(command: InteractionView, handler: HandlerView, world: World) -> Outcome {
    outcome(started(command), handler, world)
}

/// The names of the team channels after the first `from`, up to team `to`.
pub open spec fn team_names(from: nat, to: nat) -> Seq<Seq<char>> {
    Seq::new((to - from) as nat, |i: int| team_name((from + i + 1) as nat))
}

/// The channels that `world` makes for the teams after the first `from`, up
/// to team `to`.
pub open spec fn made_channels(from: nat, to: nat, world: World) -> Seq<u64> {
    Seq::new((to - from) as nat, |i: int| (world.create)(team_name((from + i + 1) as nat))->Ok_0)
}

/// The place, at or after `next`, of the first stale channel whose deletion
/// fails, or the number of stale channels where none does.
pub open spec fn first_failed_deletion(stale: Seq<u64>, next: int, world: World) -> int
    decreases stale.len() - next,
{
    if next < 0 || next >= stale.len() {
        stale.len() as int
    } else if (world.delete)(stale[next]) is Err {
        next
    } else {
        first_failed_deletion(stale, next + 1, world)
    }
}

/// The number, above `from` and up to `to`, of the first team whose channel
/// cannot be made, or `to + 1` where every one can.
pub open spec fn first_failed_creation(from: nat, to: nat, world: World) -> nat
    decreases to - from,
{
    if from >= to {
        to + 1
    } else if (world.create)(team_name(from + 1)) is Err {
        from + 1
    } else {
        first_failed_creation(from + 1, to, world)
    }
}

/// From any place in the moves on, every move that is left is asked for, in
/// order, whether or not the ones before it could be made, and the reply
/// tells the number of teams.
pub proof fn dealing_asks_for_every_move(
    moves: Seq<Move>,
    next: int,
    n_teams: u64,
    handler: HandlerView,
    world: World,
)
    requires
        0 <= next <= moves.len(),
    ensures
        outcome(moving(moves, next, n_teams), handler, world) == (Outcome {
            deleted: Seq::empty(),
            created: Seq::empty(),
            moves: moves.subrange(next, moves.len() as int),
            reply: shuffled_into(n_teams as nat),
        }),
    decreases moves.len() - next,
{
    if next < moves.len() {
        dealing_asks_for_every_move(moves, next + 1, n_teams, handler, world);
        assert(seq![moves[next]] + moves.subrange(next + 1, moves.len() as int)
            =~= moves.subrange(next, moves.len() as int));
    } else {
        assert(moves.subrange(next, moves.len() as int) =~= Seq::<Move>::empty());
    }
}

/// Where every team channel can be made, the channels `team 1` to
/// `team n_teams` are asked for in that order, and then the shuffled roster
/// is dealt out to them.
pub proof fn creation_makes_every_team(
    n_teams: u64,
    roster: Seq<u64>,
    teams: Seq<u64>,
    handler: HandlerView,
    world: World,
)
    requires
        teams.len() < n_teams,
        first_failed_creation(teams.len(), n_teams as nat, world) > n_teams,
    ensures
        outcome(
            creating(n_teams, roster, teams, handler.shuffle_category_id),
            handler,
            world,
        ) == (Outcome {
            deleted: Seq::empty(),
            created: team_names(teams.len(), n_teams as nat),
            moves: planned_moves(
                (world.shuffle)(roster),
                teams + made_channels(teams.len(), n_teams as nat, world),
            ),
            reply: shuffled_into(n_teams as nat),
        }),
    decreases n_teams - teams.len(),
{
    let category = handler.shuffle_category_id;
    let name = team_name(teams.len() + 1);
    let channel = (world.create)(name)->Ok_0;
    let more = teams.push(channel);
    let shuffled = (world.shuffle)(roster);
    let out = outcome(creating(n_teams, roster, teams, category), handler, world);
    if teams.len() + 1 < n_teams {
        creation_makes_every_team(n_teams, roster, more, handler, world);
        assert(seq![name] + team_names(more.len(), n_teams as nat) =~= team_names(
            teams.len(),
            n_teams as nat,
        ));
        assert(more + made_channels(more.len(), n_teams as nat, world) =~= teams + made_channels(
            teams.len(),
            n_teams as nat,
            world,
        ));
    } else {
        let moves = planned_moves(shuffled, more);
        dealing_asks_for_every_move(moves, 0, n_teams, handler, world);
        assert(moves.subrange(0, moves.len() as int) =~= moves);
        assert(seq![name] + Seq::<Seq<char>>::empty() =~= team_names(teams.len(), n_teams as nat));
        assert(more =~= teams + made_channels(teams.len(), n_teams as nat, world));
    }
}

/// Where a team channel cannot be made, the interaction ends with that
/// error: the channels before it were asked for and stay, no later one is
/// asked for, and nobody is moved.
pub proof fn failed_creation_ends_interaction(
    n_teams: u64,
    roster: Seq<u64>,
    teams: Seq<u64>,
    handler: HandlerView,
    world: World,
)
    requires
        teams.len() < n_teams,
        first_failed_creation(teams.len(), n_teams as nat, world) <= n_teams,
    ensures
        outcome(
            creating(n_teams, roster, teams, handler.shuffle_category_id),
            handler,
            world,
        ) == (Outcome {
            deleted: Seq::empty(),
            created: team_names(
                teams.len(),
                first_failed_creation(teams.len(), n_teams as nat, world),
            ),
            moves: Seq::empty(),
            reply: (world.create)(
                team_name(first_failed_creation(teams.len(), n_teams as nat, world)),
            )->Err_0,
        }),
        teams.len() < first_failed_creation(teams.len(), n_teams as nat, world),
    decreases n_teams - teams.len(),
{
    let name = team_name(teams.len() + 1);
    let failed = first_failed_creation(teams.len(), n_teams as nat, world);
    reveal_with_fuel(first_failed_creation, 2);
    reveal_with_fuel(outcome, 2);
    if (world.create)(name) is Err {
        assert(seq![name] + Seq::<Seq<char>>::empty() =~= team_names(teams.len(), failed));
    } else {
        let more = teams.push((world.create)(name)->Ok_0);
        failed_creation_ends_interaction(n_teams, roster, more, handler, world);
        assert(seq![name] + team_names(more.len(), failed) =~= team_names(teams.len(), failed));
    }
}

/// What follows the cleanup: the lobby is read if it was listed, and counts
/// as empty if not.
pub open spec fn after_cleanup(lobby_listed: bool, n_teams: u64, lobby: u64) -> StepView {
    cleaning(Seq::empty(), 0, lobby_listed, n_teams, lobby)
}

/// The cleanup asks for the deletion of the stale channels in order, up to
/// and with the first that fails. That failure ends the interaction with its
/// error. Where none fails the interaction goes on after the last.
pub proof fn cleanup_stops_at_first_failure(
    stale: Seq<u64>,
    next: int,
    lobby_listed: bool,
    n_teams: u64,
    handler: HandlerView,
    world: World,
)
    requires
        0 <= next <= stale.len(),
    ensures
        next <= first_failed_deletion(stale, next, world) <= stale.len(),
        first_failed_deletion(stale, next, world) < stale.len() ==> outcome(
            cleaning(stale, next, lobby_listed, n_teams, handler.lobby_channel_id),
            handler,
            world,
        ) == (Outcome {
            deleted: stale.subrange(next, first_failed_deletion(stale, next, world) + 1),
            created: Seq::empty(),
            moves: Seq::empty(),
            reply: (world.delete)(stale[first_failed_deletion(stale, next, world)])->Err_0,
        }),
        first_failed_deletion(stale, next, world) == stale.len() ==> outcome(
            cleaning(stale, next, lobby_listed, n_teams, handler.lobby_channel_id),
            handler,
            world,
        ) == ({
            let rest = outcome(
                after_cleanup(lobby_listed, n_teams, handler.lobby_channel_id),
                handler,
                world,
            );
            Outcome { deleted: stale.subrange(next, stale.len() as int) + rest.deleted, ..rest }
        }),
    decreases stale.len() - next,
{
    let lobby = handler.lobby_channel_id;
    let failed = first_failed_deletion(stale, next, world);
    reveal_with_fuel(outcome, 2);
    if next < stale.len() {
        if (world.delete)(stale[next]) is Err {
            assert(seq![stale[next]] + Seq::<u64>::empty() =~= stale.subrange(next, next + 1));
        } else {
            cleanup_stops_at_first_failure(stale, next + 1, lobby_listed, n_teams, handler, world);
            if failed < stale.len() {
                assert(seq![stale[next]] + stale.subrange(next + 1, failed + 1) =~= stale.subrange(
                    next,
                    failed + 1,
                ));
            } else {
                let rest = outcome(after_cleanup(lobby_listed, n_teams, lobby), handler, world);
                assert(seq![stale[next]] + (stale.subrange(next + 1, stale.len() as int)
                    + rest.deleted) =~= stale.subrange(next, stale.len() as int) + rest.deleted);
            }
        }
    } else {
        let rest = outcome(after_cleanup(lobby_listed, n_teams, lobby), handler, world);
        assert(stale.subrange(next, stale.len() as int) + rest.deleted =~= rest.deleted);
        assert(cleaning(stale, next, lobby_listed, n_teams, lobby) == after_cleanup(
            lobby_listed,
            n_teams,
            lobby,
        ));
    }
}

/// Whether nobody is found in the lobby: it is not listed under the shuffle
/// category, or it is read and holds nobody.
pub open spec fn lobby_is_empty(handler: HandlerView, world: World) -> bool {
    ||| !lobby_is_listed(
        world.channels,
        handler.shuffle_category_id,
        handler.lobby_channel_id,
    )
    ||| world.lobby == Ok::<Seq<u64>, Seq<char>>(Seq::empty())
}

/// The stale channels of the listing in `world`.
pub open spec fn stale(handler: HandlerView, world: World) -> Seq<u64> {
    stale_channels(
        world.channels,
        handler.shuffle_category_id,
        handler.lobby_channel_id,
    )
}

/// With nobody in the lobby no team channel is made and nobody is moved,
/// whatever else happens; and where the cleanup went through, the reply says
/// that nobody is in the lobby.
pub proof fn empty_lobby_makes_no_channel(
    command: InteractionView,
    handler: HandlerView,
    world: World,
)
    requires
        lobby_is_empty(handler, world),
    ensures
        shuffled(command, handler, world).created.len() == 0,
        shuffled(command, handler, world).moves.len() == 0,
        team_count(command) is Some && first_failed_deletion(stale(handler, world), 0, world)
            == stale(handler, world).len() ==> shuffled(command, handler, world).reply
            == nobody(),
        team_count(command) is Some && first_failed_deletion(stale(handler, world), 0, world)
            == stale(handler, world).len() ==> shuffled(command, handler, world).deleted == stale(
            handler,
            world,
        ),
{
    if team_count(command) is Some {
        let n_teams = team_count(command)->0;
        let listed = lobby_is_listed(
            world.channels,
            handler.shuffle_category_id,
            handler.lobby_channel_id,
        );
        let stale = stale(handler, world);
        cleanup_stops_at_first_failure(stale, 0, listed, n_teams, handler, world);
        reveal_with_fuel(outcome, 3);
        let rest = outcome(
            after_cleanup(listed, n_teams, handler.lobby_channel_id),
            handler,
            world,
        );
        assert(rest == replied(nobody()));
        assert(stale.subrange(0, stale.len() as int) + rest.deleted =~= stale);
    }
}

/// A failed deletion ends the interaction with its error: the stale
/// channels up to it were asked to be deleted, the lobby is not read, no
/// channel is made and nobody is moved.
pub proof fn failed_deletion_ends_interaction(
    command: InteractionView,
    handler: HandlerView,
    world: World,
)
    requires
        team_count(command) is Some,
        first_failed_deletion(stale(handler, world), 0, world) < stale(handler, world).len(),
    ensures
        shuffled(command, handler, world) == (Outcome {
            deleted: stale(handler, world).subrange(
                0,
                first_failed_deletion(stale(handler, world), 0, world) + 1,
            ),
            created: Seq::empty(),
            moves: Seq::empty(),
            reply: (world.delete)(
                stale(handler, world)[first_failed_deletion(stale(handler, world), 0, world)],
            )->Err_0,
        }),
{
    let n_teams = team_count(command)->0;
    let listed = lobby_is_listed(
        world.channels,
        handler.shuffle_category_id,
        handler.lobby_channel_id,
    );
    cleanup_stops_at_first_failure(stale(handler, world), 0, listed, n_teams, handler, world);
    reveal_with_fuel(outcome, 2);
}

/// Where every call succeeds and somebody is in the lobby, the stale
/// channels are deleted, then `team 1` to `team n` are made in that order,
/// then every member of the shuffled roster is moved to the channel of the
/// team that the member's place falls in, and the reply tells the number of
/// teams.
pub proof fn shuffle_deals_everyone(
    command: InteractionView,
    handler: HandlerView,
    world: World,
    roster: Seq<u64>,
)
    requires
        team_count(command) is Some,
        first_failed_deletion(stale(handler, world), 0, world) == stale(handler, world).len(),
        lobby_is_listed(
            world.channels,
            handler.shuffle_category_id,
            handler.lobby_channel_id,
        ),
        world.lobby == Ok::<Seq<u64>, Seq<char>>(roster),
        roster.len() > 0,
        first_failed_creation(0, team_count(command)->0 as nat, world) > team_count(command)->0,
    ensures
        shuffled(command, handler, world) == (Outcome {
            deleted: stale(handler, world),
            created: team_names(0, team_count(command)->0 as nat),
            moves: planned_moves(
                (world.shuffle)(roster),
                made_channels(0, team_count(command)->0 as nat, world),
            ),
            reply: shuffled_into(team_count(command)->0 as nat),
        }),
{
    let n_teams = team_count(command)->0;
    let stale = stale(handler, world);
    cleanup_stops_at_first_failure(stale, 0, true, n_teams, handler, world);
    creation_makes_every_team(n_teams, roster, Seq::empty(), handler, world);
    reveal_with_fuel(outcome, 3);
    let rest = outcome(
        after_cleanup(true, n_teams, handler.lobby_channel_id),
        handler,
        world,
    );
    assert(stale.subrange(0, stale.len() as int) + rest.deleted =~= stale);
    assert(Seq::<u64>::empty() + made_channels(0, n_teams as nat, world) =~= made_channels(
        0,
        n_teams as nat,
        world,
    ));
}

/// Options that have the shape that `shuffle` is registered with give a
/// number of teams, and it lies between 2 and 10.
pub proof fn registered_interaction_has_team_count(command: InteractionView)
    requires
        interaction_fits(command.options, registered()),
    ensures
        team_count(command) is Some,
        2 <= team_count(command)->0 <= 10,
{
    reveal_with_fuel(options_fit, 2);
    reveal_with_fuel(value_fits, 2);
    assert(command.options[0].name == registered().options[0].name);
}

/// The members that are moved are the shuffled roster in its order: with
/// at least one team, everybody in the lobby is moved, and nobody more often
/// than the lobby holds them.
pub proof fn moves_cover_lobby(lobby: Seq<u64>, shuffled: Seq<u64>, teams: Seq<u64>)
    requires
        teams.len() >= 1,
        shuffled.to_multiset() == lobby.to_multiset(),
    ensures
        planned_moves(shuffled, teams).map_values(|m: Move| m.member) == shuffled,
        planned_moves(shuffled, teams).map_values(|m: Move| m.member).to_multiset()
            == lobby.to_multiset(),
{
    assert(planned_moves(shuffled, teams).map_values(|m: Move| m.member) =~= shuffled);
}

/// The teams that a shuffled lobby is dealt into hold, between them, the
/// members of the lobby, each as often as the lobby does; and there are as
/// many teams as were asked for.
pub proof fn teams_hold_the_lobby(lobby: Seq<u64>, shuffled: Seq<u64>, teams: nat)
    requires
        teams >= 1,
        shuffled.to_multiset() == lobby.to_multiset(),
    ensures
        partitioned(shuffled, teams).len() == teams,
        partitioned(shuffled, teams).flatten().to_multiset() == lobby.to_multiset(),
{
    partition_keeps_roster(shuffled, teams);
}

} // verus!
