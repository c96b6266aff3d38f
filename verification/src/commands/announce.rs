//! The `announce` command: which record is asked for, which lookups that
//! takes, and what is posted and replied.

use crate::api::anilist::{Media, MediaView};
use crate::api::tmdb::{
    Configuration, ConfigurationView, Episode, EpisodeView, Movie, MovieView, Season, SeasonView,
    TvShow, TvShowView,
};
use crate::commands::options::{
    integer_at, integer_option, option_view, option_views, CommandOption, CommandOptionView,
    Interaction, InteractionView, OptionValue, OptionValueView,
};
use crate::commands::payload::{
    anilist_announcement, anilist_payload, episode_payload, movie_payload, season_payload,
    show_payload, tmdb_episode_announcement, tmdb_movie_announcement, tmdb_season_announcement,
    tmdb_show_announcement, AnnouncementPayload, AnnouncementPayloadView,
};
use crate::commands::surface::{
    integer, integer_spec, nested, nested_spec, spec_views, CommandSpec, CommandSpecView,
    OptionKind, OptionSpec, OptionSpecView,
};
use crate::mention::{channel_mention, mention_user, text_then_channel, user_mention};
use crate::text::same_text;
use crate::{Handler, HandlerView};
use vstd::prelude::*;
use vstd::string::*;

verus! {

/// Why an option tree names no lookup.
#[derive(Debug, Clone, Copy, PartialEq, Eq, Structural)]
pub enum Rejection {
    /// The first option is missing or is neither a subcommand nor a group.
    InvalidCommand,
    /// The subcommand or the group has a name that is not known.
    InvalidSubcommand,
    /// The `id` of an anime is missing or is no integer.
    IdNotInteger,
    /// The group holds no subcommand.
    NoType,
    /// The group's subcommand has a name that is not known.
    UnknownType,
    /// The `id` of a movie or a show is missing or is no integer.
    InvalidId,
    /// The number of a season or of an episode is missing or is no integer.
    InvalidNumber,
}

impl Rejection {
    /// The reply that tells the user of the rejection.
    pub open spec fn text(self) -> Seq<char> {
        match self {
            Rejection::InvalidCommand => "Invallid command"@,
            Rejection::InvalidSubcommand => "Invalid subcommand"@,
            Rejection::IdNotInteger => "Id must be a integer"@,
            Rejection::NoType => "No type defined"@,
            Rejection::UnknownType => "Unknown type"@,
            Rejection::InvalidId => "Please provide a valid ID"@,
            Rejection::InvalidNumber => "Please provide a valid number"@,
        }
    }

    pub fn message(self) -> (message: String)
        ensures
            message@ == self.text(),
    {
        match self {
            Rejection::InvalidCommand => String::from_str("Invallid command"),
            Rejection::InvalidSubcommand => String::from_str("Invalid subcommand"),
            Rejection::IdNotInteger => String::from_str("Id must be a integer"),
            Rejection::NoType => String::from_str("No type defined"),
            Rejection::UnknownType => String::from_str("Unknown type"),
            Rejection::InvalidId => String::from_str("Please provide a valid ID"),
            Rejection::InvalidNumber => String::from_str("Please provide a valid number"),
        }
    }
}

/// A record of the movie catalogue that is asked for.
#[derive(Debug, Clone, Copy, PartialEq, Eq, Structural)]
pub enum TmdbLookup {
    Movie { id: i64 },
    TvShow { id: i64 },
    Season { id: i64, season_number: i64 },
    Episode { id: i64, season_number: i64, episode_number: i64 },
}

/// What an `announce` interaction asks for. The subcommand of the movie
/// catalogue is judged when the option tree is read, but a rejection of it is
/// told only once the catalogue's configuration has been fetched.
#[derive(Debug, Clone, Copy, PartialEq, Eq)]
pub enum Request {
    Anilist { id: i64 },
    Tmdb { lookup: Result<TmdbLookup, Rejection> },
}

/// The lookup that the options below `tmdb` name. The first of them is the
/// subcommand; its own options are read by position: the id, then the
/// season's number, then the episode's.
pub open spec fn parsed_lookup(options: Seq<CommandOptionView>) -> Result<TmdbLookup, Rejection> {
    if options.len() == 0 {
        Err(Rejection::NoType)
    } else {
        match options[0].value {
            OptionValueView::SubCommand(fields) => {
                let id = integer_at(fields, 0);
                let season_number = integer_at(fields, 1);
                let episode_number = integer_at(fields, 2);
                if options[0].name == "movie"@ {
                    if id is Some {
                        Ok(TmdbLookup::Movie { id: id->0 })
                    } else {
                        Err(Rejection::InvalidId)
                    }
                } else if options[0].name == "tv_show"@ {
                    if id is Some {
                        Ok(TmdbLookup::TvShow { id: id->0 })
                    } else {
                        Err(Rejection::InvalidId)
                    }
                } else if options[0].name == "season"@ {
                    if id is None {
                        Err(Rejection::InvalidId)
                    } else if season_number is None {
                        Err(Rejection::InvalidNumber)
                    } else {
                        Ok(TmdbLookup::Season { id: id->0, season_number: season_number->0 })
                    }
                } else if options[0].name == "episode"@ {
                    if id is None {
                        Err(Rejection::InvalidId)
                    } else if season_number is None || episode_number is None {
                        Err(Rejection::InvalidNumber)
                    } else {
                        Ok(
                            TmdbLookup::Episode {
                                id: id->0,
                                season_number: season_number->0,
                                episode_number: episode_number->0,
                            },
                        )
                    }
                } else {
                    Err(Rejection::UnknownType)
                }
            },
            _ => Err(Rejection::NoType),
        }
    }
}

/// What the options of an `announce` interaction ask for. The first option is
/// the subcommand `anilist`, with the id as its first option, or the group
/// `tmdb`.
pub open spec fn parsed(options: Seq<CommandOptionView>) -> Result<Request, Rejection> {
    if options.len() == 0 {
        Err(Rejection::InvalidCommand)
    } else {
        match options[0].value {
            OptionValueView::SubCommand(fields) => {
                if options[0].name == "anilist"@ {
                    match integer_at(fields, 0) {
                        Some(id) => Ok(Request::Anilist { id }),
                        None => Err(Rejection::IdNotInteger),
                    }
                } else {
                    Err(Rejection::InvalidSubcommand)
                }
            },
            OptionValueView::SubCommandGroup(subcommands) => {
                if options[0].name == "tmdb"@ {
                    Ok(Request::Tmdb { lookup: parsed_lookup(subcommands) })
                } else {
                    Err(Rejection::InvalidSubcommand)
                }
            },
            _ => Err(Rejection::InvalidCommand),
        }
    }
}

/// Reads the lookup that the options below `tmdb` name.
pub fn parse_lookup(options: &Vec<CommandOption>) -> (lookup: Result<TmdbLookup, Rejection>)
    ensures
        lookup == parsed_lookup(option_views(options@)),
{
    if options.len() == 0 {
        return Err(Rejection::NoType);
    }
    let subcommand = &options[0];
    assert(option_views(options@)[0] == option_view(*subcommand));
    match &subcommand.value {
        OptionValue::SubCommand(fields) => {
            let name = subcommand.name.as_str();
            let id = integer_option(fields, 0);
            let season_number = integer_option(fields, 1);
            let episode_number = integer_option(fields, 2);
            if same_text(name, "movie") {
                match id {
                    Some(id) => Ok(TmdbLookup::Movie { id }),
                    None => Err(Rejection::InvalidId),
                }
            } else if same_text(name, "tv_show") {
                match id {
                    Some(id) => Ok(TmdbLookup::TvShow { id }),
                    None => Err(Rejection::InvalidId),
                }
            } else if same_text(name, "season") {
                match (id, season_number) {
                    (None, _) => Err(Rejection::InvalidId),
                    (Some(_), None) => Err(Rejection::InvalidNumber),
                    (Some(id), Some(season_number)) => Ok(
                        TmdbLookup::Season { id, season_number },
                    ),
                }
            } else if same_text(name, "episode") {
                match (id, season_number, episode_number) {
                    (None, _, _) => Err(Rejection::InvalidId),
                    (Some(id), Some(season_number), Some(episode_number)) => Ok(
                        TmdbLookup::Episode { id, season_number, episode_number },
                    ),
                    _ => Err(Rejection::InvalidNumber),
                }
            } else {
                Err(Rejection::UnknownType)
            }
        },
        _ => Err(Rejection::NoType),
    }
}

/// Reads what the options of an `announce` interaction ask for.
pub fn parse(options: &Vec<CommandOption>) -> (request: Result<Request, Rejection>)
    ensures
        request == parsed(option_views(options@)),
{
    if options.len() == 0 {
        return Err(Rejection::InvalidCommand);
    }
    let first = &options[0];
    assert(option_views(options@)[0] == option_view(*first));
    match &first.value {
        OptionValue::SubCommand(fields) => {
            if same_text(first.name.as_str(), "anilist") {
                match integer_option(fields, 0) {
                    Some(id) => Ok(Request::Anilist { id }),
                    None => Err(Rejection::IdNotInteger),
                }
            } else {
                Err(Rejection::InvalidSubcommand)
            }
        },
        OptionValue::SubCommandGroup(subcommands) => {
            if same_text(first.name.as_str(), "tmdb") {
                Ok(Request::Tmdb { lookup: parse_lookup(subcommands) })
            } else {
                Err(Rejection::InvalidSubcommand)
            }
        },
        _ => Err(Rejection::InvalidCommand),
    }
}

/// What an answer of a catalogue is to the resolver: the record, or the
/// catalogue's error as text.
pub open spec fn answer_view<T: View>(answer: Result<T, String>) -> Result<T::V, Seq<char>> {
    match answer {
        Ok(record) => Ok(record@),
        Err(error) => Err(error@),
    }
}

/// Whether the announcement was posted, or the error as text.
pub open spec fn posted_view(posted: Result<(), String>) -> Result<(), Seq<char>> {
    match posted {
        Ok(_) => Ok(()),
        Err(error) => Err(error@),
    }
}

/// The resolver waits for the anime.
#[derive(Debug, Clone, Copy)]
pub struct AfterAnime {}

/// The resolver waits for the configuration of the movie catalogue.
#[derive(Debug, Clone, Copy)]
pub struct AfterConfiguration {
    pub lookup: Result<TmdbLookup, Rejection>,
}

/// The resolver waits for the movie.
#[derive(Debug)]
pub struct AfterMovie {
    pub config: Configuration,
}

pub struct AfterMovieView {
    pub config: ConfigurationView,
}

impl View for AfterMovie {
    type V = AfterMovieView;

    open spec fn view(&self) -> AfterMovieView {
        AfterMovieView { config: self.config@ }
    }
}

/// What a show is looked up for: to be announced itself, or for its name in
/// the announcement of one of its seasons or episodes.
#[derive(Debug, Clone, Copy, PartialEq, Eq, Structural)]
pub enum ShowGoal {
    Show,
    Season { id: i64, season_number: i64 },
    Episode { id: i64, season_number: i64, episode_number: i64 },
}

/// The resolver waits for the show.
#[derive(Debug)]
pub struct AfterTvShow {
    pub config: Configuration,
    pub goal: ShowGoal,
}

pub struct AfterTvShowView {
    pub config: ConfigurationView,
    pub goal: ShowGoal,
}

impl View for AfterTvShow {
    type V = AfterTvShowView;

    open spec fn view(&self) -> AfterTvShowView {
        AfterTvShowView { config: self.config@, goal: self.goal }
    }
}

/// What a season is looked up for: to be announced itself, or for its name
/// and poster in the announcement of one of its episodes.
#[derive(Debug, Clone, Copy, PartialEq, Eq, Structural)]
pub enum SeasonGoal {
    Season,
    Episode { id: i64, season_number: i64, episode_number: i64 },
}

/// The resolver has the show and waits for the season.
#[derive(Debug)]
pub struct AfterSeason {
    pub config: Configuration,
    pub tv_show: TvShow,
    pub goal: SeasonGoal,
}

pub struct AfterSeasonView {
    pub config: ConfigurationView,
    pub tv_show: TvShowView,
    pub goal: SeasonGoal,
}

impl View for AfterSeason {
    type V = AfterSeasonView;

    open spec fn view(&self) -> AfterSeasonView {
        AfterSeasonView { config: self.config@, tv_show: self.tv_show@, goal: self.goal }
    }
}

/// The resolver has the show and the season and waits for the episode.
#[derive(Debug)]
pub struct AfterEpisode {
    pub config: Configuration,
    pub tv_show: TvShow,
    pub season: Season,
}

pub struct AfterEpisodeView {
    pub config: ConfigurationView,
    pub tv_show: TvShowView,
    pub season: SeasonView,
}

impl View for AfterEpisode {
    type V = AfterEpisodeView;

    open spec fn view(&self) -> AfterEpisodeView {
        AfterEpisodeView { config: self.config@, tv_show: self.tv_show@, season: self.season@ }
    }
}

/// The resolver waits to hear whether the announcement was posted.
#[derive(Debug, Clone, Copy)]
pub struct AfterPost {}

/// What the resolver asks its caller to do next. Every variant but `Reply`
/// names one outside call and holds the state to resume with its answer;
/// `Reply` ends the interaction.
#[derive(Debug)]
#[allow(inconsistent_fields)]
pub enum Step {
    FetchAnime { id: i64, then: AfterAnime },
    FetchConfiguration { then: AfterConfiguration },
    FetchMovie { id: i64, then: AfterMovie },
    FetchTvShow { id: i64, then: AfterTvShow },
    FetchSeason { id: i64, season_number: i64, then: AfterSeason },
    FetchEpisode { id: i64, season_number: i64, episode_number: i64, then: AfterEpisode },
    /// Post the announcement to the announcements channel.
    Post { payload: AnnouncementPayload, then: AfterPost },
    /// Answer the interaction with `message`.
    Reply { message: String },
}

#[allow(inconsistent_fields)]
pub enum StepView {
    FetchAnime { id: i64, then: AfterAnime },
    FetchConfiguration { then: AfterConfiguration },
    FetchMovie { id: i64, then: AfterMovieView },
    FetchTvShow { id: i64, then: AfterTvShowView },
    FetchSeason { id: i64, season_number: i64, then: AfterSeasonView },
    FetchEpisode { id: i64, season_number: i64, episode_number: i64, then: AfterEpisodeView },
    Post { payload: AnnouncementPayloadView, then: AfterPost },
    Reply { message: Seq<char> },
}

impl View for Step {
    type V = StepView;

    open spec fn view(&self) -> StepView {
        match *self {
            Step::FetchAnime { id, then } => StepView::FetchAnime { id, then },
            Step::FetchConfiguration { then } => StepView::FetchConfiguration { then },
            Step::FetchMovie { id, then } => StepView::FetchMovie { id, then: then@ },
            Step::FetchTvShow { id, then } => StepView::FetchTvShow { id, then: then@ },
            Step::FetchSeason { id, season_number, then } => StepView::FetchSeason {
                id,
                season_number,
                then: then@,
            },
            Step::FetchEpisode { id, season_number, episode_number, then } => StepView::FetchEpisode {
                id,
                season_number,
                episode_number,
                then: then@,
            },
            Step::Post { payload, then } => StepView::Post { payload: payload@, then },
            Step::Reply { message } => StepView::Reply { message: message@ },
        }
    }
}

/// The reply to a user who is not the administrator `admin`.
pub open spec fn denial(admin: nat) -> Seq<char> {
    "Only "@ + user_mention(admin) + " is allowed to run this command!"@
}

/// The reply after the announcement was posted to `channel`.
pub open spec fn confirmation(channel: nat) -> Seq<char> {
    "Announcement sent in "@ + channel_mention(channel)
}

/// The reply after posting the announcement failed with `error`.
pub open spec fn post_failure(error: Seq<char>) -> Seq<char> {
    "Cannot post announcement: "@ + error
}

/// The first step of an `announce` interaction. Anyone but the administrator
/// is turned away before the options are read. A rejected option tree is
/// answered at once, except below `tmdb`, where the configuration is fetched
/// first.
pub open spec fn started(command: InteractionView, handler: HandlerView) -> StepView {
    if command.user_id != handler.admin_user_id {
        StepView::Reply { message: denial(handler.admin_user_id as nat) }
    } else {
        match parsed(command.options) {
            Err(rejection) => StepView::Reply { message: rejection.text() },
            Ok(Request::Anilist { id }) => StepView::FetchAnime { id, then: AfterAnime {  } },
            Ok(Request::Tmdb { lookup }) => StepView::FetchConfiguration {
                then: AfterConfiguration { lookup },
            },
        }
    }
}

impl AfterAnime {
    /// The anime is announced; an error is replied as it is.
    pub open spec fn resumed(self, answer: Result<MediaView, Seq<char>>) -> StepView {
        match answer {
            Ok(media) => StepView::Post { payload: anilist_payload(media), then: AfterPost {  } },
            Err(error) => StepView::Reply { message: error },
        }
    }

    pub fn resume(self, answer: Result<Media, String>) -> (step: Step)
        ensures
            step@ == self.resumed(answer_view(answer)),
    {
        match answer {
            Ok(media) => Step::Post { payload: anilist_announcement(media), then: AfterPost {  } },
            Err(error) => Step::Reply { message: error },
        }
    }
}

impl AfterConfiguration {
    /// With the configuration in hand the lookup begins: a movie is fetched
    /// itself; a show, a season and an episode all start with the show. An
    /// error is replied as it is, and so is a rejection of the subcommand.
    pub open spec fn resumed(self, answer: Result<ConfigurationView, Seq<char>>) -> StepView {
        match answer {
            Err(error) => StepView::Reply { message: error },
            Ok(config) => match self.lookup {
                Err(rejection) => StepView::Reply { message: rejection.text() },
                Ok(TmdbLookup::Movie { id }) => StepView::FetchMovie {
                    id,
                    then: AfterMovieView { config },
                },
                Ok(TmdbLookup::TvShow { id }) => StepView::FetchTvShow {
                    id,
                    then: AfterTvShowView { config, goal: ShowGoal::Show },
                },
                Ok(TmdbLookup::Season { id, season_number }) => StepView::FetchTvShow {
                    id,
                    then: AfterTvShowView { config, goal: ShowGoal::Season { id, season_number } },
                },
                Ok(TmdbLookup::Episode { id, season_number, episode_number }) => StepView::FetchTvShow {
                    id,
                    then: AfterTvShowView {
                        config,
                        goal: ShowGoal::Episode { id, season_number, episode_number },
                    },
                },
            },
        }
    }

    pub fn resume(self, answer: Result<Configuration, String>) -> (step: Step)
        ensures
            step@ == self.resumed(answer_view(answer)),
    {
        match answer {
            Err(error) => Step::Reply { message: error },
            Ok(config) => match self.lookup {
                Err(rejection) => Step::Reply { message: rejection.message() },
                Ok(TmdbLookup::Movie { id }) => Step::FetchMovie { id, then: AfterMovie { config } },
                Ok(TmdbLookup::TvShow { id }) => Step::FetchTvShow {
                    id,
                    then: AfterTvShow { config, goal: ShowGoal::Show },
                },
                Ok(TmdbLookup::Season { id, season_number }) => Step::FetchTvShow {
                    id,
                    then: AfterTvShow { config, goal: ShowGoal::Season { id, season_number } },
                },
                Ok(TmdbLookup::Episode { id, season_number, episode_number }) => Step::FetchTvShow {
                    id,
                    then: AfterTvShow {
                        config,
                        goal: ShowGoal::Episode { id, season_number, episode_number },
                    },
                },
            },
        }
    }
}

impl AfterMovieView {
    /// The movie is announced; an error is replied as it is.
    pub open spec fn resumed(self, answer: Result<MovieView, Seq<char>>) -> StepView {
        match answer {
            Ok(movie) => StepView::Post {
                payload: movie_payload(self.config, movie),
                then: AfterPost {  },
            },
            Err(error) => StepView::Reply { message: error },
        }
    }
}

impl AfterMovie {
    pub fn resume(self, answer: Result<Movie, String>) -> (step: Step)
        ensures
            step@ == self@.resumed(answer_view(answer)),
    {
        match answer {
            Ok(movie) => Step::Post {
                payload: tmdb_movie_announcement(&self.config, movie),
                then: AfterPost {  },
            },
            Err(error) => Step::Reply { message: error },
        }
    }
}

impl AfterTvShowView {
    /// A show that was asked for itself is announced. For a season or an
    /// episode the season is fetched next. Where the show's lookup failed its
    /// error is replied as it is, and nothing more is fetched.
    pub open spec fn resumed(self, answer: Result<TvShowView, Seq<char>>) -> StepView {
        match answer {
            Err(error) => StepView::Reply { message: error },
            Ok(tv_show) => match self.goal {
                ShowGoal::Show => StepView::Post {
                    payload: show_payload(self.config, tv_show),
                    then: AfterPost {  },
                },
                ShowGoal::Season { id, season_number } => StepView::FetchSeason {
                    id,
                    season_number,
                    then: AfterSeasonView { config: self.config, tv_show, goal: SeasonGoal::Season },
                },
                ShowGoal::Episode { id, season_number, episode_number } => StepView::FetchSeason {
                    id,
                    season_number,
                    then: AfterSeasonView {
                        config: self.config,
                        tv_show,
                        goal: SeasonGoal::Episode { id, season_number, episode_number },
                    },
                },
            },
        }
    }
}

impl AfterTvShow {
    pub fn resume(self, answer: Result<TvShow, String>) -> (step: Step)
        ensures
            step@ == self@.resumed(answer_view(answer)),
    {
        match answer {
            Err(error) => Step::Reply { message: error },
            Ok(tv_show) => match self.goal {
                ShowGoal::Show => Step::Post {
                    payload: tmdb_show_announcement(&self.config, tv_show),
                    then: AfterPost {  },
                },
                ShowGoal::Season { id, season_number } => Step::FetchSeason {
                    id,
                    season_number,
                    then: AfterSeason { config: self.config, tv_show, goal: SeasonGoal::Season },
                },
                ShowGoal::Episode { id, season_number, episode_number } => Step::FetchSeason {
                    id,
                    season_number,
                    then: AfterSeason {
                        config: self.config,
                        tv_show,
                        goal: SeasonGoal::Episode { id, season_number, episode_number },
                    },
                },
            },
        }
    }
}

impl AfterSeasonView {
    /// A season that was asked for itself is announced with its show. For an
    /// episode the episode is fetched next. Where the season's lookup failed
    /// its error is replied as it is, and nothing more is fetched.
    pub open spec fn resumed(self, answer: Result<SeasonView, Seq<char>>) -> StepView {
        match answer {
            Err(error) => StepView::Reply { message: error },
            Ok(season) => match self.goal {
                SeasonGoal::Season => StepView::Post {
                    payload: season_payload(self.config, self.tv_show, season),
                    then: AfterPost {  },
                },
                SeasonGoal::Episode { id, season_number, episode_number } => StepView::FetchEpisode {
                    id,
                    season_number,
                    episode_number,
                    then: AfterEpisodeView { config: self.config, tv_show: self.tv_show, season },
                },
            },
        }
    }
}

impl AfterSeason {
    pub fn resume(self, answer: Result<Season, String>) -> (step: Step)
        ensures
            step@ == self@.resumed(answer_view(answer)),
    {
        match answer {
            Err(error) => Step::Reply { message: error },
            Ok(season) => match self.goal {
                SeasonGoal::Season => Step::Post {
                    payload: tmdb_season_announcement(&self.config, self.tv_show, season),
                    then: AfterPost {  },
                },
                SeasonGoal::Episode { id, season_number, episode_number } => Step::FetchEpisode {
                    id,
                    season_number,
                    episode_number,
                    then: AfterEpisode { config: self.config, tv_show: self.tv_show, season },
                },
            },
        }
    }
}

impl AfterEpisodeView {
    /// The episode is announced with its show and season; an error is
    /// replied as it is.
    pub open spec fn resumed(self, answer: Result<EpisodeView, Seq<char>>) -> StepView {
        match answer {
            Ok(episode) => StepView::Post {
                payload: episode_payload(self.config, self.tv_show, self.season, episode),
                then: AfterPost {  },
            },
            Err(error) => StepView::Reply { message: error },
        }
    }
}

impl AfterEpisode {
    pub fn resume(self, answer: Result<Episode, String>) -> (step: Step)
        ensures
            step@ == self@.resumed(answer_view(answer)),
    {
        match answer {
            Ok(episode) => Step::Post {
                payload: tmdb_episode_announcement(&self.config, self.tv_show, self.season, episode),
                then: AfterPost {  },
            },
            Err(error) => Step::Reply { message: error },
        }
    }
}

impl AfterPost {
    /// The reply names the announcements channel, or tells that posting
    /// failed and why.
    pub open spec fn resumed(self, handler: HandlerView, posted: Result<(), Seq<char>>) -> StepView {
        match posted {
            Ok(_) => StepView::Reply {
                message: confirmation(handler.jellyfin_announcements_channel_id as nat),
            },
            Err(error) => StepView::Reply { message: post_failure(error) },
        }
    }

    pub fn resume(self, handler: &Handler, posted: Result<(), String>) -> (step: Step)
        ensures
            step@ == self.resumed(handler@, posted_view(posted)),
    {
        match posted {
            Ok(_) => Step::Reply {
                message: text_then_channel(
                    "Announcement sent in ",
                    handler.jellyfin_announcements_channel_id(),
                ),
            },
            Err(error) => {
                let mut message = String::from_str("Cannot post announcement: ");
                message.append(error.as_str());
                Step::Reply { message }
            },
        }
    }
}

/// Begins an `announce` interaction: checks who invoked it, reads its
/// options, and names the first lookup or the reply.
pub fn run(command: &Interaction, handler: &Handler) -> (step: Step)
    ensures
        step@ == started(command@, handler@),
{
    let admin = handler.admin_user_id();
    if command.user_id != admin {
        let mut message = String::from_str("Only ");
        message.append(mention_user(admin).as_str());
        message.append(" is allowed to run this command!");
        return Step::Reply { message };
    }
    match parse(&command.options) {
        Err(rejection) => Step::Reply { message: rejection.message() },
        Ok(Request::Anilist { id }) => Step::FetchAnime { id, then: AfterAnime {  } },
        Ok(Request::Tmdb { lookup }) => Step::FetchConfiguration {
            then: AfterConfiguration { lookup },
        },
    }
}

/// The `id` of a record of the movie catalogue, as it is registered.
pub open spec fn tmdb_id_spec() -> OptionSpecView {
    integer_spec("id"@, "Id of the item on TMDB"@, None, None)
}

/// The number of a season, as it is registered.
pub open spec fn season_number_spec() -> OptionSpecView {
    integer_spec("season_number"@, "Season number"@, None, None)
}

/// The number of an episode, as it is registered.
pub open spec fn episode_number_spec() -> OptionSpecView {
    integer_spec("episode_number"@, "Episode number"@, None, None)
}

/// The subcommand `anilist`, as it is registered.
pub open spec fn anilist_spec() -> OptionSpecView {
    nested_spec(
        OptionKind::SubCommand,
        "anilist"@,
        "Announce a new movie, serie or season on Jellyfin"@,
        seq![integer_spec("id"@, "Id of the item on AniList"@, None, None)],
    )
}

/// The group `tmdb` with its four subcommands, as it is registered.
pub open spec fn tmdb_spec() -> OptionSpecView {
    nested_spec(
        OptionKind::SubCommandGroup,
        "tmdb"@,
        "Announce a new movie, series, season or episode on Jellyfin"@,
        seq![
            nested_spec(
                OptionKind::SubCommand,
                "movie"@,
                "Announce a new movie on Jellyfin"@,
                seq![tmdb_id_spec()],
            ),
            nested_spec(
                OptionKind::SubCommand,
                "tv_show"@,
                "Announce a new TV show on Jellyfin"@,
                seq![tmdb_id_spec()],
            ),
            nested_spec(
                OptionKind::SubCommand,
                "season"@,
                "Announce a new season on Jellyfin"@,
                seq![tmdb_id_spec(), season_number_spec()],
            ),
            nested_spec(
                OptionKind::SubCommand,
                "episode"@,
                "Announce a new episode on Jellyfin"@,
                seq![tmdb_id_spec(), season_number_spec(), episode_number_spec()],
            ),
        ],
    )
}

/// The command `announce`, as it is registered.
pub open spec fn registered() -> CommandSpecView {
    CommandSpecView {
        name: "announce"@,
        description: "Post an announcement"@,
        options: seq![anilist_spec(), tmdb_spec()],
    }
}

fn tmdb_id() -> (spec: OptionSpec)
    ensures
        spec@ == tmdb_id_spec(),
{
    integer("id", "Id of the item on TMDB", None, None)
}

fn season_number() -> (spec: OptionSpec)
    ensures
        spec@ == season_number_spec(),
{
    integer("season_number", "Season number", None, None)
}

fn episode_number() -> (spec: OptionSpec)
    ensures
        spec@ == episode_number_spec(),
{
    integer("episode_number", "Episode number", None, None)
}

/// The shape in which `announce` is registered with the platform.
pub fn register() -> (command: CommandSpec)
    ensures
        command@ == registered(),
{
    let anilist_fields = vec![integer("id", "Id of the item on AniList", None, None)];
    assert(spec_views(anilist_fields@) =~= anilist_spec().sub_options);
    let anilist = nested(
        OptionKind::SubCommand,
        "anilist",
        "Announce a new movie, serie or season on Jellyfin",
        anilist_fields,
    );
    let movie_fields = vec![tmdb_id()];
    assert(spec_views(movie_fields@) =~= seq![tmdb_id_spec()]);
    let movie = nested(
        OptionKind::SubCommand,
        "movie",
        "Announce a new movie on Jellyfin",
        movie_fields,
    );
    let tv_show_fields = vec![tmdb_id()];
    assert(spec_views(tv_show_fields@) =~= seq![tmdb_id_spec()]);
    let tv_show = nested(
        OptionKind::SubCommand,
        "tv_show",
        "Announce a new TV show on Jellyfin",
        tv_show_fields,
    );
    let season_fields = vec![tmdb_id(), season_number()];
    assert(spec_views(season_fields@) =~= seq![tmdb_id_spec(), season_number_spec()]);
    let season = nested(
        OptionKind::SubCommand,
        "season",
        "Announce a new season on Jellyfin",
        season_fields,
    );
    let episode_fields = vec![tmdb_id(), season_number(), episode_number()];
    assert(spec_views(episode_fields@) =~= seq![
        tmdb_id_spec(),
        season_number_spec(),
        episode_number_spec(),
    ]);
    let episode = nested(
        OptionKind::SubCommand,
        "episode",
        "Announce a new episode on Jellyfin",
        episode_fields,
    );
    let subcommands = vec![movie, tv_show, season, episode];
    assert(spec_views(subcommands@) =~= tmdb_spec().sub_options);
    let tmdb = nested(
        OptionKind::SubCommandGroup,
        "tmdb",
        "Announce a new movie, series, season or episode on Jellyfin",
        subcommands,
    );
    let options = vec![anilist, tmdb];
    assert(spec_views(options@) =~= registered().options);
    CommandSpec {
        name: String::from_str("announce"),
        description: String::from_str("Post an announcement"),
        options,
    }
}

} // verus!
