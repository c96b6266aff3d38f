//! The anime catalogue: its record and the query that asks for it.

use vstd::prelude::*;
use vstd::string::*;

verus! {

#[derive(Debug)]
pub struct Title {
    pub english: String,
}

pub struct TitleView {
    pub english: Seq<char>,
}

impl View for Title {
    type V = TitleView;

    open spec fn view(&self) -> TitleView {
        TitleView { english: self.english@ }
    }
}

#[derive(Debug)]
pub struct CoverImage {
    pub large: String,
    pub color: String,
}

pub struct CoverImageView {
    pub large: Seq<char>,
    pub color: Seq<char>,
}

impl View for CoverImage {
    type V = CoverImageView;

    open spec fn view(&self) -> CoverImageView {
        CoverImageView { large: self.large@, color: self.color@ }
    }
}

/// One anime as the catalogue describes it.
#[derive(Debug)]
pub struct Media {
    pub id: u32,
    pub title: Title,
    pub description: String,
    pub cover_image: CoverImage,
}

pub struct MediaView {
    pub id: nat,
    pub title: TitleView,
    pub description: Seq<char>,
    pub cover_image: CoverImageView,
}

impl View for Media {
    type V = MediaView;

    open spec fn view(&self) -> MediaView {
        MediaView {
            id: self.id as nat,
            title: self.title@,
            description: self.description@,
            cover_image: self.cover_image@,
        }
    }
}

/// The variables of the query: the id of the anime asked for.
#[derive(Debug)]
pub struct Vars {
    id: i64,
}

impl Vars {
    pub closed spec fn spec_id(&self) -> i64 {
        self.id
    }

    pub fn new(id: i64) -> (vars: Vars)
        ensures
            vars.spec_id() == id,
    {
        Vars { id }
    }

    #[verifier::when_used_as_spec(spec_id)]
    pub fn id(&self) -> (id: i64)
        ensures
            id == self.spec_id(),
    {
        self.id
    }
}

/// The address that the query is posted to.
pub const ENDPOINT: &'static str = "https://graphql.anilist.co/";

/// The query for one anime by id.
pub const QUERY: &'static str = "
        query ($id: Int) {
            Media (id: $id, type: ANIME) {
                id
                title {
                    english
                }
                description (asHtml: false)
                coverImage {
                    large
                    color
                }
            }
        }
    ";

} // verus!
