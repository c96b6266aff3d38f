//! What the two media catalogues are asked and what they answer.

pub mod anilist;
pub mod tmdb;
