//! The commands of the bot.

pub mod announce;
pub mod announce_laws;
pub mod options;
pub mod payload;
pub mod shuffle;
pub mod shuffle_laws;
pub mod surface;
