//! The announcement that is posted for a record of either catalogue.

use crate::api::anilist::{Media, MediaView};
use crate::api::tmdb::{
    Configuration, ConfigurationView, Episode, EpisodeView, Movie, MovieView, Season, SeasonView,
    TvShow, TvShowView,
};
use crate::markup::{strip_tags, without_tags};
use crate::text::{decimal, push_decimal_i64};
use crate::utils::{decode_hex, decoded_color};
use vstd::prelude::*;
use vstd::string::*;

verus! {

/// What is posted to the announcements channel.
#[derive(Debug)]
pub struct AnnouncementPayload {
    pub title: String,
    pub body: String,
    pub primary_image_url: String,
    pub thumbnail_url: Option<String>,
    pub accent_color: (u8, u8, u8),
    pub footer_text: String,
    pub footer_icon_url: String,
}

pub struct AnnouncementPayloadView {
    pub title: Seq<char>,
    pub body: Seq<char>,
    pub primary_image_url: Seq<char>,
    pub thumbnail_url: Option<Seq<char>>,
    pub accent_color: (u8, u8, u8),
    pub footer_text: Seq<char>,
    pub footer_icon_url: Seq<char>,
}

impl View for AnnouncementPayload {
    type V = AnnouncementPayloadView;

    open spec fn view(&self) -> AnnouncementPayloadView {
        AnnouncementPayloadView {
            title: self.title@,
            body: self.body@,
            primary_image_url: self.primary_image_url@,
            thumbnail_url: match self.thumbnail_url {
                Some(url) => Some(url@),
                None => None,
            },
            accent_color: self.accent_color,
            footer_text: self.footer_text@,
            footer_icon_url: self.footer_icon_url@,
        }
    }
}

/// The accent colour of every announcement from the movie catalogue.
pub const TMDB_COLOR: (u8, u8, u8) = (13, 37, 63);

pub const ANILIST_FOOTER: &'static str = "Powered by AniList";

pub const ANILIST_ICON: &'static str = "https://anilist.co/img/icons/android-chrome-512x512.png";

pub const TMDB_FOOTER: &'static str = "Powered by TMDB";

pub const TMDB_ICON: &'static str =
    "https://www.themoviedb.org/assets/2/favicon-43c40950dbf3cffd5e6d682c5a8986dfdc0ac90dce9f59da9ef072aaf53aebb3.png";

/// The title that announces `name`.
pub open spec fn available(name: Seq<char>) -> Seq<char> {
    name + " is now available!"@
}

/// The address of the full-size image at `path`.
pub open spec fn image_address(config: ConfigurationView, path: Seq<char>) -> Seq<char> {
    config.images.secure_base_url + "original"@ + path
}

/// The announcement of an anime: its description without markup, its large
/// cover, and its own colour.
pub open spec fn anilist_payload(media: MediaView) -> AnnouncementPayloadView {
    AnnouncementPayloadView {
        title: available(media.title.english),
        body: without_tags(media.description),
        primary_image_url: media.cover_image.large,
        thumbnail_url: None,
        accent_color: decoded_color(media.cover_image.color),
        footer_text: ANILIST_FOOTER@,
        footer_icon_url: ANILIST_ICON@,
    }
}

/// The announcement of a record of the movie catalogue with the given parts.
pub open spec fn tmdb_payload(
    title: Seq<char>,
    body: Seq<char>,
    primary_image_url: Seq<char>,
    thumbnail_url: Option<Seq<char>>,
) -> AnnouncementPayloadView {
    AnnouncementPayloadView {
        title,
        body,
        primary_image_url,
        thumbnail_url,
        accent_color: TMDB_COLOR,
        footer_text: TMDB_FOOTER@,
        footer_icon_url: TMDB_ICON@,
    }
}

/// The announcement of a movie: its overview as it is, and its poster.
pub open spec fn movie_payload(config: ConfigurationView, movie: MovieView) -> AnnouncementPayloadView {
    tmdb_payload(
        available(movie.title),
        movie.overview,
        image_address(config, movie.poster_path),
        None,
    )
}

/// The announcement of a show: its overview as it is, and its poster.
pub open spec fn show_payload(config: ConfigurationView, tv_show: TvShowView) -> AnnouncementPayloadView {
    tmdb_payload(
        available(tv_show.name),
        tv_show.overview,
        image_address(config, tv_show.poster_path),
        None,
    )
}

/// The title of a season: the show, then the season.
pub open spec fn season_title(tv_show: TvShowView, season: SeasonView) -> Seq<char> {
    available(tv_show.name + " "@ + season.name)
}

/// The announcement of a season: the season's overview and poster, with the
/// show's poster as thumbnail.
pub open spec fn season_payload(
    config: ConfigurationView,
    tv_show: TvShowView,
    season: SeasonView,
) -> AnnouncementPayloadView {
    tmdb_payload(
        season_title(tv_show, season),
        season.overview,
        image_address(config, season.poster_path),
        Some(image_address(config, tv_show.poster_path)),
    )
}

/// The title of an episode: the show, the season, then the episode's number.
pub open spec fn episode_title(
    tv_show: TvShowView,
    season: SeasonView,
    episode: EpisodeView,
) -> Seq<char> {
    available(
        tv_show.name + " "@ + season.name + " Episode "@ + decimal(episode.episode_number),
    )
}

/// The announcement of an episode: the episode's overview and still, with
/// the season's poster as thumbnail.
pub open spec fn episode_payload(
    config: ConfigurationView,
    tv_show: TvShowView,
    season: SeasonView,
    episode: EpisodeView,
) -> AnnouncementPayloadView {
    tmdb_payload(
        episode_title(tv_show, season, episode),
        episode.overview,
        image_address(config, episode.still_path),
        Some(image_address(config, season.poster_path)),
    )
}

fn image_url(config: &Configuration, path: &str) -> (url: String)
    ensures
        url@ == image_address(config@, path@),
{
    let mut url = config.images.secure_base_url.clone();
    url.append("original");
    url.append(path);
    url
}

fn tmdb_announcement(
    title: String,
    body: String,
    primary_image_url: String,
    thumbnail_url: Option<String>,
) -> (payload: AnnouncementPayload)
    ensures
        payload@ == tmdb_payload(
            title@,
            body@,
            primary_image_url@,
            match thumbnail_url {
                Some(url) => Some(url@),
                None => None,
            },
        ),
{
    AnnouncementPayload {
        title,
        body,
        primary_image_url,
        thumbnail_url,
        accent_color: TMDB_COLOR,
        footer_text: String::from_str(TMDB_FOOTER),
        footer_icon_url: String::from_str(TMDB_ICON),
    }
}

/// Formats the announcement of an anime.
pub fn anilist_announcement(media: Media) -> (payload: AnnouncementPayload)
    ensures
        payload@ == anilist_payload(media@),
{
    let body = strip_tags(media.description.as_str());
    let accent_color = decode_hex(media.cover_image.color.as_str());
    let mut title = media.title.english;
    title.append(" is now available!");
    AnnouncementPayload {
        title,
        body,
        primary_image_url: media.cover_image.large,
        thumbnail_url: None,
        accent_color,
        footer_text: String::from_str(ANILIST_FOOTER),
        footer_icon_url: String::from_str(ANILIST_ICON),
    }
}

/// Formats the announcement of a show.
pub fn tmdb_show_announcement(
    config: &Configuration,
    tv_show: TvShow,
) -> (payload: AnnouncementPayload)
    ensures
        payload@ == show_payload(config@, tv_show@),
{
    let image = image_url(config, tv_show.poster_path.as_str());
    let mut title = tv_show.name;
    title.append(" is now available!");
    tmdb_announcement(title, tv_show.overview, image, None)
}

/// Formats the announcement of a movie.
pub fn tmdb_movie_announcement(
    config: &Configuration,
    movie: Movie,
) -> (payload: AnnouncementPayload)
    ensures
        payload@ == movie_payload(config@, movie@),
{
    let image = image_url(config, movie.poster_path.as_str());
    let mut title = movie.title;
    title.append(" is now available!");
    tmdb_announcement(title, movie.overview, image, None)
}

/// Formats the announcement of a season of a show.
pub fn tmdb_season_announcement(
    config: &Configuration,
    tv_show: TvShow,
    season: Season,
) -> (payload: AnnouncementPayload)
    ensures
        payload@ == season_payload(config@, tv_show@, season@),
{
    let image = image_url(config, season.poster_path.as_str());
    let thumbnail = image_url(config, tv_show.poster_path.as_str());
    let mut title = tv_show.name;
    title.append(" ");
    title.append(season.name.as_str());
    title.append(" is now available!");
    tmdb_announcement(title, season.overview, image, Some(thumbnail))
}

/// Formats the announcement of an episode of a season of a show.
pub fn tmdb_episode_announcement(
    config: &Configuration,
    tv_show: TvShow,
    season: Season,
    episode: Episode,
) -> (payload: AnnouncementPayload)
    ensures
        payload@ == episode_payload(config@, tv_show@, season@, episode@),
{
    let image = image_url(config, episode.still_path.as_str());
    let thumbnail = image_url(config, season.poster_path.as_str());
    let mut title = tv_show.name;
    title.append(" ");
    title.append(season.name.as_str());
    title.append(" Episode ");
    push_decimal_i64(&mut title, episode.episode_number as i64);
    title.append(" is now available!");
    tmdb_announcement(title, episode.overview, image, Some(thumbnail))
}

/// A record of either catalogue with what its announcement is made from: an
/// anime stands alone; a record of the movie catalogue comes with the
/// configuration that its images are addressed by, a season with its show,
/// an episode with its show and season.
#[derive(Debug)]
pub enum MediaRecord {
    Anime { media: Media },
    Movie { config: Configuration, movie: Movie },
    TvShow { config: Configuration, tv_show: TvShow },
    Season { config: Configuration, tv_show: TvShow, season: Season },
    Episode { config: Configuration, tv_show: TvShow, season: Season, episode: Episode },
}

pub enum MediaRecordView {
    Anime { media: MediaView },
    Movie { config: ConfigurationView, movie: MovieView },
    TvShow { config: ConfigurationView, tv_show: TvShowView },
    Season { config: ConfigurationView, tv_show: TvShowView, season: SeasonView },
    Episode {
        config: ConfigurationView,
        tv_show: TvShowView,
        season: SeasonView,
        episode: EpisodeView,
    },
}

impl View for MediaRecord {
    type V = MediaRecordView;

    open spec fn view(&self) -> MediaRecordView {
        match *self {
            MediaRecord::Anime { media } => MediaRecordView::Anime { media: media@ },
            MediaRecord::Movie { config, movie } => MediaRecordView::Movie {
                config: config@,
                movie: movie@,
            },
            MediaRecord::TvShow { config, tv_show } => MediaRecordView::TvShow {
                config: config@,
                tv_show: tv_show@,
            },
            MediaRecord::Season { config, tv_show, season } => MediaRecordView::Season {
                config: config@,
                tv_show: tv_show@,
                season: season@,
            },
            MediaRecord::Episode { config, tv_show, season, episode } => MediaRecordView::Episode {
                config: config@,
                tv_show: tv_show@,
                season: season@,
                episode: episode@,
            },
        }
    }
}

/// The announcement of a record, by its kind.
pub open spec fn payload_of(record: MediaRecordView) -> AnnouncementPayloadView {
    match record {
        MediaRecordView::Anime { media } => anilist_payload(media),
        MediaRecordView::Movie { config, movie } => movie_payload(config, movie),
        MediaRecordView::TvShow { config, tv_show } => show_payload(config, tv_show),
        MediaRecordView::Season { config, tv_show, season } => season_payload(
            config,
            tv_show,
            season,
        ),
        MediaRecordView::Episode { config, tv_show, season, episode } => episode_payload(
            config,
            tv_show,
            season,
            episode,
        ),
    }
}

/// Formats the announcement of a record of either catalogue.
pub fn announcement(record: MediaRecord) -> (payload: AnnouncementPayload)
    ensures
        payload@ == payload_of(record@),
{
    match record {
        MediaRecord::Anime { media } => anilist_announcement(media),
        MediaRecord::Movie { config, movie } => tmdb_movie_announcement(&config, movie),
        MediaRecord::TvShow { config, tv_show } => tmdb_show_announcement(&config, tv_show),
        MediaRecord::Season { config, tv_show, season } => tmdb_season_announcement(
            &config,
            tv_show,
            season,
        ),
        MediaRecord::Episode { config, tv_show, season, episode } => tmdb_episode_announcement(
            &config,
            tv_show,
            season,
            episode,
        ),
    }
}

/// Every announcement of the movie catalogue has the catalogue's colour and
/// footer, and only those of a season or an episode have a thumbnail.
pub proof fn tmdb_announcements_look_alike(record: MediaRecordView)
    requires
        !(record is Anime),
    ensures
        payload_of(record).accent_color == TMDB_COLOR,
        payload_of(record).footer_text == TMDB_FOOTER@,
        payload_of(record).footer_icon_url == TMDB_ICON@,
        payload_of(record).thumbnail_url is Some <==> record is Season || record is Episode,
{
}

} // verus!
