//! A day's schedule and the media content of a game.
use crate::calendar::{kickoff_in_range, Date, EARLIEST_KICKOFF, LATEST_KICKOFF};
use vstd::prelude::*;

verus! {

/// One game of a schedule.
#[derive(Debug)]
pub struct Game {
    /// Kickoff, in seconds since 1970-01-01T00:00:00Z.
    pub kickoff: i64,
    /// The game's unique identifier.
    pub game_pk: u64,
    pub away: String,
    pub home: String,
}

impl Game {
    pub open spec fn wf(&self) -> bool {
        kickoff_in_range(self.kickoff)
    }

    /// Whether the kickoff lies in the years 1 to 9999.
    pub fn is_well_formed(&self) -> (r: bool)
        ensures
            r == self.wf(),
    {
        EARLIEST_KICKOFF <= self.kickoff && self.kickoff <= LATEST_KICKOFF
    }
}

/// A date and its games, in the order that the schedule gives them.
#[derive(Debug)]
pub struct Schedule {
    pub date: Date,
    pub games: Vec<Game>,
}

impl Schedule {
    pub open spec fn wf(&self) -> bool {
        &&& self.date.wf()
        &&& forall|i: int| 0 <= i < self.games@.len() ==> #[trigger] self.games@[i].wf()
    }

    /// Whether the date has four digits and every kickoff lies in the years
    /// 1 to 9999.
    pub fn is_well_formed(&self) -> (r: bool)
        ensures
            r == self.wf(),
    {
        if self.date.year < 0 || self.date.year > 9999 {
            return false;
        }
        if Date::new(self.date.year, self.date.month, self.date.day).is_none() {
            return false;
        }
        let mut i: usize = 0;
        while i < self.games.len()
            invariant
                self.date.wf(),
                i <= self.games@.len(),
                forall|k: int| 0 <= k < i ==> #[trigger] self.games@[k].wf(),
            decreases self.games@.len() - i,
        {
            if !self.games[i].is_well_formed() {
                return false;
            }
            i = i + 1;
        }
        true
    }
}

/// One stream of a broadcast.
#[derive(Debug)]
pub struct StreamItem {
    /// Home, away or national feed.
    pub media_feed_type: String,
    /// The token that the media host locates the stream by.
    pub media_playback_id: String,
}

/// An entry of the electronic program guide.
#[derive(Debug)]
pub struct EpgEntry {
    pub title: String,
    pub items: Option<Vec<StreamItem>>,
}

/// The media of one game.
#[derive(Debug)]
pub struct GameContent {
    pub epg: Vec<EpgEntry>,
}

} // verus!
