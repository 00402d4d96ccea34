//! Picks a game from a day's schedule, then one of its broadcast streams,
//! and builds the playback URL for it.

pub mod text;
pub mod calendar;
pub mod schedule;
pub mod menu;
pub mod selection;
pub mod url;
pub mod session;
