use discord_announcer::api::anilist::{CoverImage, Media, Title};
use discord_announcer::api::tmdb::{
    Configuration, Episode, ImagesConfiguration, Movie, Season, TvShow,
};
use discord_announcer::commands::options::{CommandOption, Interaction, OptionValue};
use discord_announcer::commands::payload::{announcement, MediaRecord};
use discord_announcer::commands::{announce, shuffle};
use discord_announcer::{Dispatch, Handler};

fn handler() -> Handler {
    Handler::new(1, 42, 77, 88, 99).unwrap()
}

fn interaction(name: &str, user_id: u64, options: Vec<CommandOption>) -> Interaction {
    Interaction { name: name.to_string(), user_id, options }
}

fn config() -> Configuration {
    Configuration { images: ImagesConfiguration { secure_base_url: "https://img/".to_string() } }
}

fn show() -> TvShow {
    TvShow { name: "Dark".to_string(), overview: "A town.".to_string(), poster_path: "/d.jpg".to_string() }
}

fn season() -> Season {
    Season { name: "Season 3".to_string(), overview: "The end.".to_string(), poster_path: "/s.jpg".to_string() }
}

#[test]
fn announce_is_routed_to_its_resolver() {
    let command = interaction(
        "announce",
        42,
        vec![CommandOption {
            name: "anilist".to_string(),
            value: OptionValue::SubCommand(vec![CommandOption {
                name: "id".to_string(),
                value: OptionValue::Integer(5),
            }]),
        }],
    );
    match handler().interaction_create(&command) {
        Dispatch::Announce(announce::Step::FetchAnime { id, .. }) => assert_eq!(id, 5),
        other => panic!("expected the anime lookup, got {:?}", other),
    }
}

#[test]
fn announce_by_a_stranger_is_denied_by_its_resolver() {
    let command = interaction("announce", 43, vec![]);
    match handler().interaction_create(&command) {
        Dispatch::Announce(announce::Step::Reply { message }) => {
            assert_eq!(message, "Only <@42> is allowed to run this command!")
        }
        other => panic!("expected the denial, got {:?}", other),
    }
}

#[test]
fn shuffle_is_routed_to_its_resolver_for_anyone() {
    let command = interaction(
        "shuffle",
        43,
        vec![CommandOption { name: "n_teams".to_string(), value: OptionValue::Integer(4) }],
    );
    match handler().interaction_create(&command) {
        Dispatch::Shuffle(shuffle::Step::ListChannels { then }) => assert_eq!(then.n_teams, 4),
        other => panic!("expected the listing, got {:?}", other),
    }
}

#[test]
fn other_names_are_not_implemented() {
    for name in ["", "ping", "Announce", "shuffle ", "announcement"] {
        match handler().interaction_create(&interaction(name, 42, vec![])) {
            Dispatch::Reply { message } => assert_eq!(message, "not implemented"),
            other => panic!("expected a reply, got {:?}", other),
        }
    }
}

#[test]
fn announcement_of_each_kind_of_record() {
    let anime = announcement(MediaRecord::Anime {
        media: Media {
            id: 1,
            title: Title { english: "Mushishi".to_string() },
            description: "Quiet<br><br>tales".to_string(),
            cover_image: CoverImage { large: "http://c/l.png".to_string(), color: "#a1b2c3".to_string() },
        },
    });
    assert_eq!(anime.title, "Mushishi is now available!");
    assert_eq!(anime.body, "Quiettales");
    assert_eq!(anime.accent_color, (0xa1, 0xb2, 0xc3));
    assert_eq!(anime.footer_text, "Powered by AniList");

    let movie = announcement(MediaRecord::Movie {
        config: config(),
        movie: Movie {
            title: "Heat".to_string(),
            overview: "A crew.".to_string(),
            poster_path: "/h.jpg".to_string(),
        },
    });
    assert_eq!(movie.title, "Heat is now available!");
    assert_eq!(movie.primary_image_url, "https://img/original/h.jpg");
    assert_eq!(movie.thumbnail_url, None);

    let tv_show = announcement(MediaRecord::TvShow { config: config(), tv_show: show() });
    assert_eq!(tv_show.title, "Dark is now available!");
    assert_eq!(tv_show.thumbnail_url, None);

    let a_season =
        announcement(MediaRecord::Season { config: config(), tv_show: show(), season: season() });
    assert_eq!(a_season.title, "Dark Season 3 is now available!");
    assert_eq!(a_season.thumbnail_url, Some("https://img/original/d.jpg".to_string()));

    let episode = announcement(MediaRecord::Episode {
        config: config(),
        tv_show: show(),
        season: season(),
        episode: Episode {
            overview: "Last.".to_string(),
            still_path: "/e.jpg".to_string(),
            episode_number: 8,
        },
    });
    assert_eq!(episode.title, "Dark Season 3 Episode 8 is now available!");
    assert_eq!(episode.primary_image_url, "https://img/original/e.jpg");
    assert_eq!(episode.thumbnail_url, Some("https://img/original/s.jpg".to_string()));
    for payload in [movie, tv_show, a_season, episode] {
        assert_eq!(payload.accent_color, (13, 37, 63));
        assert_eq!(payload.footer_text, "Powered by TMDB");
    }
}
