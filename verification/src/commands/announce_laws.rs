//! What an `announce` interaction comes to, whatever the catalogues answer.

use crate::api::anilist::MediaView;
use crate::api::tmdb::{ConfigurationView, EpisodeView, MovieView, SeasonView, TvShowView};
use crate::commands::announce::{
    confirmation, denial, parsed, post_failure, started, Rejection, Request, StepView,
    TmdbLookup,
};
use crate::commands::announce::{registered, tmdb_spec};
use crate::commands::options::{CommandOptionView, InteractionView};
use crate::commands::surface::{interaction_fits, options_fit, value_fits};
use crate::commands::payload::{anilist_payload, episode_payload, AnnouncementPayloadView};
use crate::HandlerView;
use vstd::prelude::*;

verus! {

/// One lookup in a catalogue.
pub enum Call {
    Anime { id: i64 },
    Configuration,
    Movie { id: i64 },
    TvShow { id: i64 },
    Season { id: i64, season_number: i64 },
    Episode { id: i64, season_number: i64, episode_number: i64 },
}

/// What the catalogues and the announcements channel answer to each call.
pub struct World {
    pub anime: spec_fn(i64) -> Result<MediaView, Seq<char>>,
    pub configuration: Result<ConfigurationView, Seq<char>>,
    pub movie: spec_fn(i64) -> Result<MovieView, Seq<char>>,
    pub tv_show: spec_fn(i64) -> Result<TvShowView, Seq<char>>,
    pub season: spec_fn(i64, i64) -> Result<SeasonView, Seq<char>>,
    pub episode: spec_fn(i64, i64, i64) -> Result<EpisodeView, Seq<char>>,
    pub post: spec_fn(AnnouncementPayloadView) -> Result<(), Seq<char>>,
}

/// What an interaction came to: the lookups that were made, in their order,
/// the announcements that were handed over for posting, and the reply.
pub struct Outcome {
    pub calls: Seq<Call>,
    pub posted: Seq<AnnouncementPayloadView>,
    pub reply: Seq<char>,
}

/// A bound on the number of steps that follow `step`.
pub open spec fn steps_left(step: StepView) -> nat {
    match step {
        StepView::Reply { .. } => 0,
        StepView::Post { .. } => 1,
        StepView::FetchAnime { .. } => 2,
        StepView::FetchMovie { .. } => 2,
        StepView::FetchEpisode { .. } => 2,
        StepView::FetchSeason { .. } => 3,
        StepView::FetchTvShow { .. } => 4,
        StepView::FetchConfiguration { .. } => 5,
    }
}

/// `outcome` with `call` made before it.
pub open spec fn after_call(call: Call, outcome: Outcome) -> Outcome {
    Outcome { calls: seq![call] + outcome.calls, posted: outcome.posted, reply: outcome.reply }
}

/// What the interaction comes to from `step` on, when every call that the
/// resolver asks for is made and answered as `world` says.
pub open spec fn outcome(step: StepView, handler: HandlerView, world: World) -> Outcome
    decreases steps_left(step),
{
    match step {
        StepView::Reply { message } => Outcome {
            calls: Seq::empty(),
            posted: Seq::empty(),
            reply: message,
        },
        StepView::Post { payload, then } => {
            let rest = outcome(then.resumed(handler, (world.post)(payload)), handler, world);
            Outcome { calls: rest.calls, posted: seq![payload] + rest.posted, reply: rest.reply }
        },
        StepView::FetchAnime { id, then } => after_call(
            Call::Anime { id },
            outcome(then.resumed((world.anime)(id)), handler, world),
        ),
        StepView::FetchConfiguration { then } => after_call(
            Call::Configuration,
            outcome(then.resumed(world.configuration), handler, world),
        ),
        StepView::FetchMovie { id, then } => after_call(
            Call::Movie { id },
            outcome(then.resumed((world.movie)(id)), handler, world),
        ),
        StepView::FetchTvShow { id, then } => after_call(
            Call::TvShow { id },
            outcome(then.resumed((world.tv_show)(id)), handler, world),
        ),
        StepView::FetchSeason { id, season_number, then } => after_call(
            Call::Season { id, season_number },
            outcome(then.resumed((world.season)(id, season_number)), handler, world),
        ),
        StepView::FetchEpisode { id, season_number, episode_number, then } => after_call(
            Call::Episode { id, season_number, episode_number },
            outcome(
                then.resumed((world.episode)(id, season_number, episode_number)),
                handler,
                world,
            ),
        ),
    }
}

/// What an `announce` interaction comes to.
pub open spec fn announced(command: InteractionView, handler: HandlerView, world: World) -> Outcome {
    outcome(started(command, handler), handler, world)
}

/// Whoever is not the administrator gets the denial, whatever the options
/// are, and no catalogue is asked anything and nothing is posted.
pub proof fn stranger_is_turned_away(command: InteractionView, handler: HandlerView, world: World)
    requires
        command.user_id != handler.admin_user_id,
    ensures
        announced(command, handler, world).reply == denial(handler.admin_user_id as nat),
        announced(command, handler, world).calls.len() == 0,
        announced(command, handler, world).posted.len() == 0,
{
}

/// Where the show of a season cannot be fetched, the reply is the error of
/// that lookup: the configuration and the show were asked for, the season is
/// not, and nothing is posted.
pub proof fn failed_show_ends_season_lookup(
    command: InteractionView,
    handler: HandlerView,
    world: World,
    id: i64,
    season_number: i64,
    error: Seq<char>,
)
    requires
        command.user_id == handler.admin_user_id,
        parsed(command.options) == Ok::<Request, Rejection>(
            Request::Tmdb { lookup: Ok(TmdbLookup::Season { id, season_number }) },
        ),
        world.configuration is Ok,
        (world.tv_show)(id) == Err::<TvShowView, _>(error),
    ensures
        announced(command, handler, world).reply == error,
        announced(command, handler, world).calls == seq![Call::Configuration, Call::TvShow { id }],
        announced(command, handler, world).posted.len() == 0,
{
    reveal_with_fuel(outcome, 4);
    assert(announced(command, handler, world).calls =~= seq![
        Call::Configuration,
        Call::TvShow { id },
    ]);
}

/// Whatever is answered, at most one announcement is handed over for
/// posting, and if one is, the reply tells whether it was posted.
pub proof fn posts_at_most_once(step: StepView, handler: HandlerView, world: World)
    ensures
        outcome(step, handler, world).posted.len() <= 1,
        outcome(step, handler, world).posted.len() == 1 ==> ({
            let payload = outcome(step, handler, world).posted[0];
            let reply = outcome(step, handler, world).reply;
            match (world.post)(payload) {
                Ok(_) => reply == confirmation(handler.jellyfin_announcements_channel_id as nat),
                Err(error) => reply == post_failure(error),
            }
        }),
        outcome(step, handler, world).calls.len() <= steps_left(step),
    decreases steps_left(step),
{
    match step {
        StepView::Reply { message } => {},
        StepView::Post { payload, then } => {
            posts_at_most_once(then.resumed(handler, (world.post)(payload)), handler, world);
        },
        StepView::FetchAnime { id, then } => {
            posts_at_most_once(then.resumed((world.anime)(id)), handler, world);
        },
        StepView::FetchConfiguration { then } => {
            posts_at_most_once(then.resumed(world.configuration), handler, world);
        },
        StepView::FetchMovie { id, then } => {
            posts_at_most_once(then.resumed((world.movie)(id)), handler, world);
        },
        StepView::FetchTvShow { id, then } => {
            posts_at_most_once(then.resumed((world.tv_show)(id)), handler, world);
        },
        StepView::FetchSeason { id, season_number, then } => {
            posts_at_most_once(then.resumed((world.season)(id, season_number)), handler, world);
        },
        StepView::FetchEpisode { id, season_number, episode_number, then } => {
            posts_at_most_once(
                then.resumed((world.episode)(id, season_number, episode_number)),
                handler,
                world,
            );
        },
    }
}

/// An anime that is found is announced: one lookup is made, its announcement
/// is handed over, and the reply names the announcements channel.
pub proof fn found_anime_is_announced(
    command: InteractionView,
    handler: HandlerView,
    world: World,
    id: i64,
    media: MediaView,
)
    requires
        command.user_id == handler.admin_user_id,
        parsed(command.options) == Ok::<Request, Rejection>(Request::Anilist { id }),
        (world.anime)(id) == Ok::<_, Seq<char>>(media),
        (world.post)(anilist_payload(media)) is Ok,
    ensures
        announced(command, handler, world).calls == seq![Call::Anime { id }],
        announced(command, handler, world).posted == seq![anilist_payload(media)],
        announced(command, handler, world).reply == confirmation(
            handler.jellyfin_announcements_channel_id as nat,
        ),
{
    reveal_with_fuel(outcome, 4);
    assert(announced(command, handler, world).calls =~= seq![Call::Anime { id }]);
    assert(announced(command, handler, world).posted =~= seq![anilist_payload(media)]);
}

/// An episode is announced after four lookups, each of which needs the one
/// before it: the configuration, the show, the season, the episode.
pub proof fn found_episode_is_announced(
    command: InteractionView,
    handler: HandlerView,
    world: World,
    id: i64,
    season_number: i64,
    episode_number: i64,
)
    requires
        command.user_id == handler.admin_user_id,
        parsed(command.options) == Ok::<Request, Rejection>(
            Request::Tmdb {
                lookup: Ok(TmdbLookup::Episode { id, season_number, episode_number }),
            },
        ),
        world.configuration is Ok,
        (world.tv_show)(id) is Ok,
        (world.season)(id, season_number) is Ok,
        (world.episode)(id, season_number, episode_number) is Ok,
    ensures
        announced(command, handler, world).calls == seq![
            Call::Configuration,
            Call::TvShow { id },
            Call::Season { id, season_number },
            Call::Episode { id, season_number, episode_number },
        ],
        announced(command, handler, world).posted == seq![
            episode_payload(
                world.configuration->Ok_0,
                (world.tv_show)(id)->Ok_0,
                (world.season)(id, season_number)->Ok_0,
                (world.episode)(id, season_number, episode_number)->Ok_0,
            ),
        ],
{
    reveal_with_fuel(outcome, 7);
    assert(announced(command, handler, world).calls =~= seq![
        Call::Configuration,
        Call::TvShow { id },
        Call::Season { id, season_number },
        Call::Episode { id, season_number, episode_number },
    ]);
    assert(announced(command, handler, world).posted =~= seq![
        episode_payload(
            world.configuration->Ok_0,
            (world.tv_show)(id)->Ok_0,
            (world.season)(id, season_number)->Ok_0,
            (world.episode)(id, season_number, episode_number)->Ok_0,
        ),
    ]);
}

/// The first lookup that fails ends the interaction: its error is the reply,
/// no lookup follows it, and nothing is posted.
pub proof fn failed_lookup_ends_interaction(step: StepView, handler: HandlerView, world: World)
    requires
        answer_failed(step, world) is Some,
    ensures
        outcome(step, handler, world).reply == answer_failed(step, world)->0,
        outcome(step, handler, world).calls.len() == 1,
        outcome(step, handler, world).posted.len() == 0,
{
    reveal_with_fuel(outcome, 2);
}

/// The error with which the lookup that `step` asks for fails in `world`, if
/// `step` asks for one and it fails.
pub open spec fn answer_failed(step: StepView, world: World) -> Option<Seq<char>> {
    match step {
        StepView::FetchAnime { id, .. } => failure((world.anime)(id)),
        StepView::FetchConfiguration { .. } => failure(world.configuration),
        StepView::FetchMovie { id, .. } => failure((world.movie)(id)),
        StepView::FetchTvShow { id, .. } => failure((world.tv_show)(id)),
        StepView::FetchSeason { id, season_number, .. } => failure(
            (world.season)(id, season_number),
        ),
        StepView::FetchEpisode { id, season_number, episode_number, .. } => failure(
            (world.episode)(id, season_number, episode_number),
        ),
        _ => None,
    }
}

/// The error of an answer, if it is one.
pub open spec fn failure<T>(answer: Result<T, Seq<char>>) -> Option<Seq<char>> {
    match answer {
        Ok(_) => None,
        Err(error) => Some(error),
    }
}

/// Options that have the shape that `announce` is registered with are never
/// rejected: they name an anime or a record of the movie catalogue.
pub proof fn registered_interaction_is_understood(options: Seq<CommandOptionView>)
    requires
        interaction_fits(options, registered()),
    ensures
        parsed(options) is Ok,
        parsed(options)->Ok_0 matches Request::Tmdb { lookup } ==> lookup is Ok,
{
    reveal_with_fuel(options_fit, 3);
    reveal_with_fuel(value_fits, 3);
    reveal_strlit("movie");
    reveal_strlit("tv_show");
    reveal_strlit("season");
    reveal_strlit("episode");
    let specs = registered().options;
    let k = choose|k: int|
        0 <= k < specs.len() && options[0].name == (#[trigger] specs[k]).name && value_fits(
            options[0].value,
            specs[k],
        );
    if k == 0 {
        let fields = options[0].value->SubCommand_0;
        assert(fields[0].name == specs[0].sub_options[0].name);
    } else {
        let subcommands = options[0].value->SubCommandGroup_0;
        let choices = tmdb_spec().sub_options;
        let j = choose|j: int|
            0 <= j < choices.len() && subcommands[0].name == (#[trigger] choices[j]).name
                && value_fits(subcommands[0].value, choices[j]);
        let fields = subcommands[0].value->SubCommand_0;
        assert(subcommands[0].name.len() == choices[j].name.len());
        assert(subcommands[0].name[0] == choices[j].name[0]);
        if j == 0 {
            assert(fields[0].name == choices[0].sub_options[0].name);
        } else if j == 1 {
            assert(fields[0].name == choices[1].sub_options[0].name);
        } else if j == 2 {
            assert(fields[0].name == choices[2].sub_options[0].name);
            assert(fields[1].name == choices[2].sub_options[1].name);
        } else {
            assert(fields[0].name == choices[3].sub_options[0].name);
            assert(fields[1].name == choices[3].sub_options[1].name);
            assert(fields[2].name == choices[3].sub_options[2].name);
        }
    }
}

} // verus!
