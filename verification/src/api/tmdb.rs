//! The movie and television catalogue: its records and the addresses at
//! which they are found.

use crate::text::{decimal, push_decimal_i64};
use vstd::prelude::*;
use vstd::string::*;

verus! {

/// Where the catalogue serves images from.
#[derive(Debug)]
pub struct ImagesConfiguration {
    pub secure_base_url: String,
}

pub struct ImagesConfigurationView {
    pub secure_base_url: Seq<char>,
}

impl View for ImagesConfiguration {
    type V = ImagesConfigurationView;

    open spec fn view(&self) -> ImagesConfigurationView {
        ImagesConfigurationView { secure_base_url: self.secure_base_url@ }
    }
}

/// The catalogue's configuration record.
#[derive(Debug)]
pub struct Configuration {
    pub images: ImagesConfiguration,
}

pub struct ConfigurationView {
    pub images: ImagesConfigurationView,
}

impl View for Configuration {
    type V = ConfigurationView;

    open spec fn view(&self) -> ConfigurationView {
        ConfigurationView { images: self.images@ }
    }
}

#[derive(Debug)]
pub struct Movie {
    pub title: String,
    pub overview: String,
    pub poster_path: String,
}

pub struct MovieView {
    pub title: Seq<char>,
    pub overview: Seq<char>,
    pub poster_path: Seq<char>,
}

impl View for Movie {
    type V = MovieView;

    open spec fn view(&self) -> MovieView {
        MovieView {
            title: self.title@,
            overview: self.overview@,
            poster_path: self.poster_path@,
        }
    }
}

#[derive(Debug)]
pub struct TvShow {
    pub name: String,
    pub overview: String,
    pub poster_path: String,
}

pub struct TvShowView {
    pub name: Seq<char>,
    pub overview: Seq<char>,
    pub poster_path: Seq<char>,
}

impl View for TvShow {
    type V = TvShowView;

    open spec fn view(&self) -> TvShowView {
        TvShowView {
            name: self.name@,
            overview: self.overview@,
            poster_path: self.poster_path@,
        }
    }
}

#[derive(Debug)]
pub struct Season {
    pub name: String,
    pub overview: String,
    pub poster_path: String,
}

pub struct SeasonView {
    pub name: Seq<char>,
    pub overview: Seq<char>,
    pub poster_path: Seq<char>,
}

impl View for Season {
    type V = SeasonView;

    open spec fn view(&self) -> SeasonView {
        SeasonView {
            name: self.name@,
            overview: self.overview@,
            poster_path: self.poster_path@,
        }
    }
}

#[derive(Debug)]
pub struct Episode {
    pub overview: String,
    pub still_path: String,
    pub episode_number: i32,
}

pub struct EpisodeView {
    pub overview: Seq<char>,
    pub still_path: Seq<char>,
    pub episode_number: int,
}

impl View for Episode {
    type V = EpisodeView;

    open spec fn view(&self) -> EpisodeView {
        EpisodeView {
            overview: self.overview@,
            still_path: self.still_path@,
            episode_number: self.episode_number as int,
        }
    }
}

/// The address of the configuration record.
pub open spec fn configuration_address() -> Seq<char> {
    "https://api.themoviedb.org/3/configuration"@
}

/// The address of the movie `id`.
pub open spec fn movie_address(id: int) -> Seq<char> {
    "https://api.themoviedb.org/3/movie/"@ + decimal(id)
}

/// The address of the show `id`.
pub open spec fn tv_show_address(id: int) -> Seq<char> {
    "https://api.themoviedb.org/3/tv/"@ + decimal(id)
}

/// The address of season `season_number` of the show `id`.
pub open spec fn season_address(id: int, season_number: int) -> Seq<char> {
    tv_show_address(id) + "/season/"@ + decimal(season_number)
}

/// The address of episode `episode_number` in season `season_number` of the
/// show `id`.
pub open spec fn episode_address(id: int, season_number: int, episode_number: int) -> Seq<char> {
    season_address(id, season_number) + "/episode/"@ + decimal(episode_number)
}

/// The value of the authorization header for the credential `token`.
pub open spec fn bearer(token: Seq<char>) -> Seq<char> {
    "Bearer "@ + token
}

pub fn configuration_endpoint() -> (url: String)
    ensures
        url@ == configuration_address(),
{
    String::from_str("https://api.themoviedb.org/3/configuration")
}

pub fn movie_endpoint(id: i64) -> (url: String)
    ensures
        url@ == movie_address(id as int),
{
    let mut url = String::from_str("https://api.themoviedb.org/3/movie/");
    push_decimal_i64(&mut url, id);
    url
}

pub fn tv_show_endpoint(id: i64) -> (url: String)
    ensures
        url@ == tv_show_address(id as int),
{
    let mut url = String::from_str("https://api.themoviedb.org/3/tv/");
    push_decimal_i64(&mut url, id);
    url
}

pub fn season_endpoint(id: i64, season_number: i64) -> (url: String)
    ensures
        url@ == season_address(id as int, season_number as int),
{
    let mut url = tv_show_endpoint(id);
    url.append("/season/");
    push_decimal_i64(&mut url, season_number);
    url
}

pub fn episode_endpoint(id: i64, season_number: i64, episode_number: i64) -> (url: String)
    ensures
        url@ == episode_address(id as int, season_number as int, episode_number as int),
{
    let mut url = season_endpoint(id, season_number);
    url.append("/episode/");
    push_decimal_i64(&mut url, episode_number);
    url
}

pub fn authorization(token: &str) -> (header: String)
    ensures
        header@ == bearer(token@),
{
    let mut header = String::from_str("Bearer ");
    header.append(token);
    header
}

} // verus!
