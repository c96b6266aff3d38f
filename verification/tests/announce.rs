use discord_announcer::api::anilist::{CoverImage, Media, Title};
use discord_announcer::api::tmdb::{
    Configuration, Episode, ImagesConfiguration, Movie, Season, TvShow,
};
use discord_announcer::commands::announce::{
    parse, parse_lookup, run, Rejection, Request, ShowGoal, Step, TmdbLookup,
};
use discord_announcer::commands::options::{CommandOption, Interaction, OptionValue};
use discord_announcer::Handler;

const ADMIN: u64 = 42;
const ANNOUNCEMENTS: u64 = 77;

fn handler() -> Handler {
    Handler::new(1, ADMIN, ANNOUNCEMENTS, 88, 99).unwrap()
}

fn integer(name: &str, value: i64) -> CommandOption {
    CommandOption { name: name.to_string(), value: OptionValue::Integer(value) }
}

fn text(name: &str, value: &str) -> CommandOption {
    CommandOption { name: name.to_string(), value: OptionValue::Text(value.to_string()) }
}

fn other(name: &str) -> CommandOption {
    CommandOption { name: name.to_string(), value: OptionValue::Other }
}

fn subcommand(name: &str, options: Vec<CommandOption>) -> CommandOption {
    CommandOption { name: name.to_string(), value: OptionValue::SubCommand(options) }
}

fn group(name: &str, options: Vec<CommandOption>) -> CommandOption {
    CommandOption { name: name.to_string(), value: OptionValue::SubCommandGroup(options) }
}

fn announce(user_id: u64, options: Vec<CommandOption>) -> Interaction {
    Interaction { name: "announce".to_string(), user_id, options }
}

fn tmdb(name: &str, fields: Vec<CommandOption>) -> Vec<CommandOption> {
    vec![group("tmdb", vec![subcommand(name, fields)])]
}

fn config() -> Configuration {
    Configuration { images: ImagesConfiguration { secure_base_url: "https://img/".to_string() } }
}

fn show() -> TvShow {
    TvShow {
        name: "Dark".to_string(),
        overview: "A town.".to_string(),
        poster_path: "/dark.jpg".to_string(),
    }
}

fn season() -> Season {
    Season {
        name: "Season 3".to_string(),
        overview: "The end.".to_string(),
        poster_path: "/s3.jpg".to_string(),
    }
}

fn reply(step: Step) -> String {
    match step {
        Step::Reply { message } => message,
        other => panic!("expected a reply, got {:?}", other),
    }
}

#[test]
fn anilist_announcement_end_to_end() {
    let handler = handler();
    let command = announce(ADMIN, vec![subcommand("anilist", vec![integer("id", 5)])]);
    let then = match run(&command, &handler) {
        Step::FetchAnime { id, then } => {
            assert_eq!(id, 5);
            then
        }
        other => panic!("expected the anime lookup, got {:?}", other),
    };
    let media = Media {
        id: 5,
        title: Title { english: "Cowboy Bebop".to_string() },
        description: "<i>great</i> show".to_string(),
        cover_image: CoverImage {
            large: "http://x/img.png".to_string(),
            color: "#0D253F".to_string(),
        },
    };
    let then = match then.resume(Ok(media)) {
        Step::Post { payload, then } => {
            assert_eq!(payload.title, "Cowboy Bebop is now available!");
            assert_eq!(payload.body, "great show");
            assert_eq!(payload.primary_image_url, "http://x/img.png");
            assert_eq!(payload.accent_color, (13, 37, 63));
            assert_eq!(payload.thumbnail_url, None);
            then
        }
        other => panic!("expected the announcement, got {:?}", other),
    };
    assert_eq!(reply(then.resume(&handler, Ok(()))), "Announcement sent in <#77>");
}

#[test]
fn stranger_is_denied_whatever_the_subcommand() {
    let handler = handler();
    let trees = vec![
        vec![subcommand("anilist", vec![integer("id", 5)])],
        tmdb("movie", vec![integer("id", 5)]),
        tmdb("tv_show", vec![integer("id", 5)]),
        tmdb("season", vec![integer("id", 5), integer("season_number", 1)]),
        tmdb(
            "episode",
            vec![integer("id", 5), integer("season_number", 1), integer("episode_number", 2)],
        ),
        vec![subcommand("unknown", vec![])],
        vec![],
    ];
    for options in trees {
        let step = run(&announce(ADMIN + 1, options), &handler);
        assert_eq!(reply(step), "Only <@42> is allowed to run this command!");
    }
}

#[test]
fn denial_names_the_administrator() {
    let handler = Handler::new(1, 18446744073709551615, 3, 4, 5).unwrap();
    let step = run(&announce(7, vec![]), &handler);
    assert_eq!(reply(step), "Only <@18446744073709551615> is allowed to run this command!");
}

#[test]
fn failed_show_lookup_ends_season_request() {
    let handler = handler();
    let command =
        announce(ADMIN, tmdb("season", vec![integer("id", 70523), integer("season_number", 3)]));
    let then = match run(&command, &handler) {
        Step::FetchConfiguration { then } => then,
        other => panic!("expected the configuration lookup, got {:?}", other),
    };
    let then = match then.resume(Ok(config())) {
        Step::FetchTvShow { id, then } => {
            assert_eq!(id, 70523);
            assert_eq!(then.goal, ShowGoal::Season { id: 70523, season_number: 3 });
            then
        }
        other => panic!("expected the show lookup, got {:?}", other),
    };
    let step = then.resume(Err("error decoding response body".to_string()));
    assert_eq!(reply(step), "error decoding response body");
}

#[test]
fn failed_configuration_lookup_ends_request() {
    let handler = handler();
    let command = announce(ADMIN, tmdb("movie", vec![integer("id", 1)]));
    let then = match run(&command, &handler) {
        Step::FetchConfiguration { then } => then,
        other => panic!("expected the configuration lookup, got {:?}", other),
    };
    assert_eq!(reply(then.resume(Err("no route".to_string()))), "no route");
}

#[test]
fn failed_anime_lookup_is_replied() {
    let handler = handler();
    let command = announce(ADMIN, vec![subcommand("anilist", vec![integer("id", 5)])]);
    match run(&command, &handler) {
        Step::FetchAnime { then, .. } => {
            assert_eq!(reply(then.resume(Err("timeout".to_string()))), "timeout");
        }
        other => panic!("expected the anime lookup, got {:?}", other),
    }
}

#[test]
fn movie_chain() {
    let handler = handler();
    let command = announce(ADMIN, tmdb("movie", vec![integer("id", 603)]));
    let then = match run(&command, &handler) {
        Step::FetchConfiguration { then } => then,
        other => panic!("expected the configuration lookup, got {:?}", other),
    };
    let then = match then.resume(Ok(config())) {
        Step::FetchMovie { id, then } => {
            assert_eq!(id, 603);
            then
        }
        other => panic!("expected the movie lookup, got {:?}", other),
    };
    let movie = Movie {
        title: "The Matrix".to_string(),
        overview: "Wake up.".to_string(),
        poster_path: "/m.jpg".to_string(),
    };
    match then.resume(Ok(movie)) {
        Step::Post { payload, then } => {
            assert_eq!(payload.title, "The Matrix is now available!");
            assert_eq!(payload.body, "Wake up.");
            assert_eq!(payload.primary_image_url, "https://img/original/m.jpg");
            assert_eq!(payload.thumbnail_url, None);
            assert_eq!(reply(then.resume(&handler, Ok(()))), "Announcement sent in <#77>");
        }
        other => panic!("expected the announcement, got {:?}", other),
    }
}

#[test]
fn failed_movie_lookup_is_replied() {
    let handler = handler();
    let command = announce(ADMIN, tmdb("movie", vec![integer("id", 603)]));
    let then = match run(&command, &handler) {
        Step::FetchConfiguration { then } => then,
        other => panic!("expected the configuration lookup, got {:?}", other),
    };
    match then.resume(Ok(config())) {
        Step::FetchMovie { then, .. } => {
            assert_eq!(reply(then.resume(Err("404".to_string()))), "404");
        }
        other => panic!("expected the movie lookup, got {:?}", other),
    }
}

#[test]
fn show_chain() {
    let handler = handler();
    let command = announce(ADMIN, tmdb("tv_show", vec![integer("id", 70523)]));
    let then = match run(&command, &handler) {
        Step::FetchConfiguration { then } => then,
        other => panic!("expected the configuration lookup, got {:?}", other),
    };
    let then = match then.resume(Ok(config())) {
        Step::FetchTvShow { id, then } => {
            assert_eq!(id, 70523);
            assert_eq!(then.goal, ShowGoal::Show);
            then
        }
        other => panic!("expected the show lookup, got {:?}", other),
    };
    match then.resume(Ok(show())) {
        Step::Post { payload, .. } => {
            assert_eq!(payload.title, "Dark is now available!");
            assert_eq!(payload.body, "A town.");
            assert_eq!(payload.primary_image_url, "https://img/original/dark.jpg");
            assert_eq!(payload.thumbnail_url, None);
        }
        other => panic!("expected the announcement, got {:?}", other),
    }
}

#[test]
fn season_chain() {
    let handler = handler();
    let command =
        announce(ADMIN, tmdb("season", vec![integer("id", 70523), integer("season_number", 3)]));
    let then = match run(&command, &handler) {
        Step::FetchConfiguration { then } => then,
        other => panic!("expected the configuration lookup, got {:?}", other),
    };
    let then = match then.resume(Ok(config())) {
        Step::FetchTvShow { then, .. } => then,
        other => panic!("expected the show lookup, got {:?}", other),
    };
    let then = match then.resume(Ok(show())) {
        Step::FetchSeason { id, season_number, then } => {
            assert_eq!((id, season_number), (70523, 3));
            then
        }
        other => panic!("expected the season lookup, got {:?}", other),
    };
    match then.resume(Ok(season())) {
        Step::Post { payload, .. } => {
            assert_eq!(payload.title, "Dark Season 3 is now available!");
            assert_eq!(payload.body, "The end.");
            assert_eq!(payload.primary_image_url, "https://img/original/s3.jpg");
            assert_eq!(payload.thumbnail_url, Some("https://img/original/dark.jpg".to_string()));
        }
        other => panic!("expected the announcement, got {:?}", other),
    }
}

#[test]
fn failed_season_lookup_is_replied() {
    let handler = handler();
    let command =
        announce(ADMIN, tmdb("season", vec![integer("id", 70523), integer("season_number", 3)]));
    let then = match run(&command, &handler) {
        Step::FetchConfiguration { then } => then,
        other => panic!("expected the configuration lookup, got {:?}", other),
    };
    let then = match then.resume(Ok(config())) {
        Step::FetchTvShow { then, .. } => then,
        other => panic!("expected the show lookup, got {:?}", other),
    };
    match then.resume(Ok(show())) {
        Step::FetchSeason { then, .. } => {
            assert_eq!(reply(then.resume(Err("no season".to_string()))), "no season");
        }
        other => panic!("expected the season lookup, got {:?}", other),
    }
}

#[test]
fn episode_chain() {
    let handler = handler();
    let command = announce(
        ADMIN,
        tmdb(
            "episode",
            vec![integer("id", 70523), integer("season_number", 3), integer("episode_number", 8)],
        ),
    );
    let then = match run(&command, &handler) {
        Step::FetchConfiguration { then } => then,
        other => panic!("expected the configuration lookup, got {:?}", other),
    };
    let then = match then.resume(Ok(config())) {
        Step::FetchTvShow { id, then } => {
            assert_eq!(id, 70523);
            then
        }
        other => panic!("expected the show lookup, got {:?}", other),
    };
    let then = match then.resume(Ok(show())) {
        Step::FetchSeason { id, season_number, then } => {
            assert_eq!((id, season_number), (70523, 3));
            then
        }
        other => panic!("expected the season lookup, got {:?}", other),
    };
    let then = match then.resume(Ok(season())) {
        Step::FetchEpisode { id, season_number, episode_number, then } => {
            assert_eq!((id, season_number, episode_number), (70523, 3, 8));
            then
        }
        other => panic!("expected the episode lookup, got {:?}", other),
    };
    let episode = Episode {
        overview: "Paradise.".to_string(),
        still_path: "/e8.jpg".to_string(),
        episode_number: 8,
    };
    match then.resume(Ok(episode)) {
        Step::Post { payload, then } => {
            assert_eq!(payload.title, "Dark Season 3 Episode 8 is now available!");
            assert_eq!(payload.body, "Paradise.");
            assert_eq!(payload.primary_image_url, "https://img/original/e8.jpg");
            assert_eq!(payload.thumbnail_url, Some("https://img/original/s3.jpg".to_string()));
            assert_eq!(
                reply(then.resume(&handler, Err("Missing Permissions".to_string()))),
                "Cannot post announcement: Missing Permissions"
            );
        }
        other => panic!("expected the announcement, got {:?}", other),
    }
}

#[test]
fn failed_episode_lookup_is_replied() {
    let handler = handler();
    let command = announce(
        ADMIN,
        tmdb(
            "episode",
            vec![integer("id", 1), integer("season_number", 2), integer("episode_number", 3)],
        ),
    );
    let then = match run(&command, &handler) {
        Step::FetchConfiguration { then } => then,
        other => panic!("expected the configuration lookup, got {:?}", other),
    };
    let then = match then.resume(Ok(config())) {
        Step::FetchTvShow { then, .. } => then,
        other => panic!("expected the show lookup, got {:?}", other),
    };
    let then = match then.resume(Ok(show())) {
        Step::FetchSeason { then, .. } => then,
        other => panic!("expected the season lookup, got {:?}", other),
    };
    match then.resume(Ok(season())) {
        Step::FetchEpisode { then, .. } => {
            assert_eq!(reply(then.resume(Err("gone".to_string()))), "gone");
        }
        other => panic!("expected the episode lookup, got {:?}", other),
    }
}

#[test]
fn rejected_subcommand_is_told_after_the_configuration() {
    let handler = handler();
    let command = announce(ADMIN, tmdb("movie", vec![text("id", "abc")]));
    let then = match run(&command, &handler) {
        Step::FetchConfiguration { then } => then,
        other => panic!("expected the configuration lookup, got {:?}", other),
    };
    assert_eq!(then.lookup, Err(Rejection::InvalidId));
    assert_eq!(reply(then.resume(Ok(config()))), "Please provide a valid ID");
    let command = announce(ADMIN, tmdb("movie", vec![text("id", "abc")]));
    match run(&command, &handler) {
        Step::FetchConfiguration { then } => {
            assert_eq!(reply(then.resume(Err("offline".to_string()))), "offline");
        }
        other => panic!("expected the configuration lookup, got {:?}", other),
    }
}

#[test]
fn rejections_at_the_top() {
    let handler = handler();
    assert_eq!(reply(run(&announce(ADMIN, vec![]), &handler)), "Invallid command");
    assert_eq!(reply(run(&announce(ADMIN, vec![integer("id", 1)]), &handler)), "Invallid command");
    assert_eq!(
        reply(run(&announce(ADMIN, vec![subcommand("imdb", vec![integer("id", 1)])]), &handler)),
        "Invalid subcommand"
    );
    assert_eq!(
        reply(run(&announce(ADMIN, vec![group("imdb", vec![])]), &handler)),
        "Invalid subcommand"
    );
    assert_eq!(
        reply(run(&announce(ADMIN, vec![subcommand("anilist", vec![text("id", "5")])]), &handler)),
        "Id must be a integer"
    );
    assert_eq!(
        reply(run(&announce(ADMIN, vec![subcommand("anilist", vec![])]), &handler)),
        "Id must be a integer"
    );
}

#[test]
fn every_rejection_has_its_message() {
    assert_eq!(Rejection::InvalidCommand.message(), "Invallid command");
    assert_eq!(Rejection::InvalidSubcommand.message(), "Invalid subcommand");
    assert_eq!(Rejection::IdNotInteger.message(), "Id must be a integer");
    assert_eq!(Rejection::NoType.message(), "No type defined");
    assert_eq!(Rejection::UnknownType.message(), "Unknown type");
    assert_eq!(Rejection::InvalidId.message(), "Please provide a valid ID");
    assert_eq!(Rejection::InvalidNumber.message(), "Please provide a valid number");
}

#[test]
fn parses_every_request() {
    assert_eq!(
        parse(&vec![subcommand("anilist", vec![integer("id", 5)])]),
        Ok(Request::Anilist { id: 5 })
    );
    assert_eq!(
        parse(&tmdb("movie", vec![integer("id", 6)])),
        Ok(Request::Tmdb { lookup: Ok(TmdbLookup::Movie { id: 6 }) })
    );
    assert_eq!(
        parse(&tmdb("tv_show", vec![integer("id", 7)])),
        Ok(Request::Tmdb { lookup: Ok(TmdbLookup::TvShow { id: 7 }) })
    );
    assert_eq!(
        parse(&tmdb("season", vec![integer("id", 8), integer("season_number", 2)])),
        Ok(Request::Tmdb { lookup: Ok(TmdbLookup::Season { id: 8, season_number: 2 }) })
    );
    assert_eq!(
        parse(&tmdb(
            "episode",
            vec![integer("id", 9), integer("season_number", 2), integer("episode_number", 4)]
        )),
        Ok(Request::Tmdb {
            lookup: Ok(TmdbLookup::Episode { id: 9, season_number: 2, episode_number: 4 })
        })
    );
}

#[test]
fn options_are_read_by_position() {
    assert_eq!(
        parse_lookup(&vec![subcommand(
            "season",
            vec![integer("season_number", 2), integer("id", 8)]
        )]),
        Ok(TmdbLookup::Season { id: 2, season_number: 8 })
    );
    assert_eq!(
        parse(&vec![
            subcommand("anilist", vec![integer("id", 5), text("note", "x")]),
            subcommand("ignored", vec![]),
        ]),
        Ok(Request::Anilist { id: 5 })
    );
}

#[test]
fn every_rejection_below_tmdb() {
    assert_eq!(parse_lookup(&vec![]), Err(Rejection::NoType));
    assert_eq!(parse_lookup(&vec![integer("movie", 1)]), Err(Rejection::NoType));
    assert_eq!(parse_lookup(&vec![group("movie", vec![])]), Err(Rejection::NoType));
    assert_eq!(
        parse_lookup(&vec![subcommand("person", vec![integer("id", 1)])]),
        Err(Rejection::UnknownType)
    );
    assert_eq!(parse_lookup(&vec![subcommand("movie", vec![])]), Err(Rejection::InvalidId));
    assert_eq!(
        parse_lookup(&vec![subcommand("tv_show", vec![text("id", "1")])]),
        Err(Rejection::InvalidId)
    );
    assert_eq!(
        parse_lookup(&vec![subcommand("season", vec![text("id", "1"), text("n", "1")])]),
        Err(Rejection::InvalidId)
    );
    assert_eq!(
        parse_lookup(&vec![subcommand("season", vec![integer("id", 1)])]),
        Err(Rejection::InvalidNumber)
    );
    assert_eq!(
        parse_lookup(&vec![subcommand("season", vec![integer("id", 1), text("n", "1")])]),
        Err(Rejection::InvalidNumber)
    );
    assert_eq!(
        parse_lookup(&vec![subcommand("episode", vec![text("id", "1")])]),
        Err(Rejection::InvalidId)
    );
    assert_eq!(
        parse_lookup(&vec![subcommand("episode", vec![integer("id", 1), text("n", "1")])]),
        Err(Rejection::InvalidNumber)
    );
    assert_eq!(
        parse_lookup(&vec![subcommand(
            "episode",
            vec![integer("id", 1), integer("season_number", 1)]
        )]),
        Err(Rejection::InvalidNumber)
    );
    assert_eq!(
        parse_lookup(&vec![subcommand(
            "episode",
            vec![integer("id", 1), integer("season_number", 1), other("episode_number")]
        )]),
        Err(Rejection::InvalidNumber)
    );
}

#[test]
fn rejections_at_the_top_of_parse() {
    assert_eq!(parse(&vec![]), Err(Rejection::InvalidCommand));
    assert_eq!(parse(&vec![text("anilist", "5")]), Err(Rejection::InvalidCommand));
    assert_eq!(parse(&vec![subcommand("tmdb", vec![])]), Err(Rejection::InvalidSubcommand));
    assert_eq!(parse(&vec![group("anilist", vec![])]), Err(Rejection::InvalidSubcommand));
    assert_eq!(parse(&vec![subcommand("anilist", vec![])]), Err(Rejection::IdNotInteger));
    assert_eq!(
        parse(&vec![group("tmdb", vec![])]),
        Ok(Request::Tmdb { lookup: Err(Rejection::NoType) })
    );
}
