use discord_announcer::api::anilist::{CoverImage, Media, Title};
use discord_announcer::api::tmdb::{
    Configuration, Episode, ImagesConfiguration, Movie, Season, TvShow,
};
use discord_announcer::commands::payload::{
    anilist_announcement, tmdb_episode_announcement, tmdb_movie_announcement,
    tmdb_season_announcement, tmdb_show_announcement, ANILIST_FOOTER, ANILIST_ICON, TMDB_COLOR,
    TMDB_FOOTER, TMDB_ICON,
};

fn config() -> Configuration {
    Configuration {
        images: ImagesConfiguration { secure_base_url: "https://image.tmdb.org/t/p/".to_string() },
    }
}

fn show() -> TvShow {
    TvShow {
        name: "Severance".to_string(),
        overview: "Mark leads a team.".to_string(),
        poster_path: "/show.jpg".to_string(),
    }
}

fn season() -> Season {
    Season {
        name: "Season 2".to_string(),
        overview: "The second <b>season</b>.".to_string(),
        poster_path: "/season.jpg".to_string(),
    }
}

#[test]
fn anime_announcement() {
    let payload = anilist_announcement(Media {
        id: 5,
        title: Title { english: "Cowboy Bebop".to_string() },
        description: "<i>great</i> show".to_string(),
        cover_image: CoverImage {
            large: "http://x/img.png".to_string(),
            color: "#0D253F".to_string(),
        },
    });
    assert_eq!(payload.title, "Cowboy Bebop is now available!");
    assert_eq!(payload.body, "great show");
    assert_eq!(payload.primary_image_url, "http://x/img.png");
    assert_eq!(payload.thumbnail_url, None);
    assert_eq!(payload.accent_color, (13, 37, 63));
    assert_eq!(payload.footer_text, "Powered by AniList");
    assert_eq!(
        payload.footer_icon_url,
        "https://anilist.co/img/icons/android-chrome-512x512.png"
    );
    assert_eq!(payload.footer_text, ANILIST_FOOTER);
    assert_eq!(payload.footer_icon_url, ANILIST_ICON);
}

#[test]
fn anime_with_malformed_color_is_partly_black() {
    let payload = anilist_announcement(Media {
        id: 1,
        title: Title { english: "A".to_string() },
        description: "plain".to_string(),
        cover_image: CoverImage { large: "u".to_string(), color: "#e4zz5d".to_string() },
    });
    assert_eq!(payload.accent_color, (0xe4, 0, 0x5d));
    assert_eq!(payload.body, "plain");
}

#[test]
fn movie_announcement() {
    let payload = tmdb_movie_announcement(
        &config(),
        Movie {
            title: "The Matrix".to_string(),
            overview: "A <hacker> learns.".to_string(),
            poster_path: "/matrix.jpg".to_string(),
        },
    );
    assert_eq!(payload.title, "The Matrix is now available!");
    assert_eq!(payload.body, "A <hacker> learns.");
    assert_eq!(payload.primary_image_url, "https://image.tmdb.org/t/p/original/matrix.jpg");
    assert_eq!(payload.thumbnail_url, None);
    assert_eq!(payload.accent_color, (13, 37, 63));
    assert_eq!(payload.accent_color, TMDB_COLOR);
    assert_eq!(payload.footer_text, "Powered by TMDB");
    assert_eq!(payload.footer_text, TMDB_FOOTER);
    assert_eq!(
        payload.footer_icon_url,
        "https://www.themoviedb.org/assets/2/favicon-43c40950dbf3cffd5e6d682c5a8986dfdc0ac90dce9f59da9ef072aaf53aebb3.png"
    );
    assert_eq!(payload.footer_icon_url, TMDB_ICON);
}

#[test]
fn show_announcement() {
    let payload = tmdb_show_announcement(&config(), show());
    assert_eq!(payload.title, "Severance is now available!");
    assert_eq!(payload.body, "Mark leads a team.");
    assert_eq!(payload.primary_image_url, "https://image.tmdb.org/t/p/original/show.jpg");
    assert_eq!(payload.thumbnail_url, None);
    assert_eq!(payload.accent_color, (13, 37, 63));
    assert_eq!(payload.footer_text, "Powered by TMDB");
}

#[test]
fn season_announcement() {
    let payload = tmdb_season_announcement(&config(), show(), season());
    assert_eq!(payload.title, "Severance Season 2 is now available!");
    assert_eq!(payload.body, "The second <b>season</b>.");
    assert_eq!(payload.primary_image_url, "https://image.tmdb.org/t/p/original/season.jpg");
    assert_eq!(
        payload.thumbnail_url,
        Some("https://image.tmdb.org/t/p/original/show.jpg".to_string())
    );
    assert_eq!(payload.accent_color, (13, 37, 63));
    assert_eq!(payload.footer_text, "Powered by TMDB");
}

#[test]
fn episode_announcement() {
    let payload = tmdb_episode_announcement(
        &config(),
        show(),
        season(),
        Episode {
            overview: "Hello, Ms. Cobel".to_string(),
            still_path: "/still.jpg".to_string(),
            episode_number: 10,
        },
    );
    assert_eq!(payload.title, "Severance Season 2 Episode 10 is now available!");
    assert_eq!(payload.body, "Hello, Ms. Cobel");
    assert_eq!(payload.primary_image_url, "https://image.tmdb.org/t/p/original/still.jpg");
    assert_eq!(
        payload.thumbnail_url,
        Some("https://image.tmdb.org/t/p/original/season.jpg".to_string())
    );
    assert_eq!(payload.accent_color, (13, 37, 63));
    assert_eq!(payload.footer_text, "Powered by TMDB");
}

#[test]
fn episode_number_may_be_negative() {
    let payload = tmdb_episode_announcement(
        &config(),
        show(),
        season(),
        Episode { overview: String::new(), still_path: String::new(), episode_number: -3 },
    );
    assert_eq!(payload.title, "Severance Season 2 Episode -3 is now available!");
    assert_eq!(payload.primary_image_url, "https://image.tmdb.org/t/p/original");
}
