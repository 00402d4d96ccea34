//! One run of the picker: each outside step's outcome decides the next step.
use crate::calendar::{resolve_date, Date};
use crate::menu::{chosen_index, game_menu, is_game_line, stream_line_chars, stream_menu};
use crate::schedule::{GameContent, Schedule, StreamItem};
use crate::selection::{
    lemma_stream_groups_offer, offers_streams, select_game, stream_groups, stream_groups_upto,
    ChoiceError,
};
use crate::url::{playback_url, url_chars};
use vstd::prelude::*;

verus! {

/// Where a run stands.
#[derive(Clone, Copy, Debug, PartialEq, Eq, Structural)]
pub enum Stage {
    AwaitingSchedule,
    AwaitingGameChoice,
    AwaitingContent,
    AwaitingStreamChoice,
    ShowingUrl,
    Done,
    Failed,
}

/// What an outside step came back with.
#[derive(Debug)]
pub enum Event {
    ScheduleFetched(Schedule),
    ContentFetched(GameContent),
    FetchFailed(String),
    Chose(usize),
    UrlShown,
}

/// What the run asks to be done next.
#[derive(Debug)]
pub enum Action {
    /// Look up the schedule of this day.
    FetchSchedule(Date),
    /// Show this game menu and read a choice.
    AskGame(Vec<String>),
    /// Look up the media of the game with this identifier.
    FetchContent(u64),
    /// Show this stream menu and read a choice.
    AskStream(Vec<String>),
    /// Show this playback URL.
    ShowUrl(String),
    /// End the run successfully.
    Finish,
    /// End the run with this error.
    Fail(String),
    /// The event did not fit the stage; nothing changed.
    Ignore,
}

/// Whether `lines` is the stream menu of `items`.
pub open spec fn is_stream_menu(lines: Seq<String>, items: Seq<StreamItem>) -> bool {
    &&& lines.len() == items.len()
    &&& forall|i: int|
        0 <= i < lines.len() ==> #[trigger] lines[i]@ == stream_line_chars((i + 1) as nat, items[i].media_feed_type@)
}

/// Whether `lines` is the game menu of `games`.
pub open spec fn is_games_menu(lines: Seq<String>, schedule: Schedule) -> bool {
    &&& lines.len() == schedule.games@.len()
    &&& forall|i: int| 0 <= i < lines.len() ==> #[trigger] is_game_line(lines[i]@, (i + 1) as nat, schedule.games@[i])
}

/// The streams of the `g`-th guide entry.
pub open spec fn entry_items(content: GameContent, g: int) -> Seq<StreamItem> {
    content.epg@[g].items.unwrap()@
}

/// The state of one run.
#[derive(Debug)]
pub struct Session {
    /// The media host that playback URLs point to.
    pub host: String,
    pub stage: Stage,
    pub schedule: Option<Schedule>,
    pub content: Option<GameContent>,
    /// The index of the guide entry whose stream menu is shown: the first
    /// one that offers streams.
    pub group: usize,
}

impl Session {
    pub open spec fn has_schedule(&self) -> bool {
        self.stage == Stage::AwaitingGameChoice || self.stage == Stage::AwaitingContent
            || self.stage == Stage::AwaitingStreamChoice || self.stage == Stage::ShowingUrl
    }

    pub open spec fn has_streams(&self) -> bool {
        self.stage == Stage::AwaitingStreamChoice || self.stage == Stage::ShowingUrl
    }

    pub open spec fn wf(&self) -> bool {
        &&& self.has_schedule() ==> (self.schedule matches Some(s) && s.wf())
        &&& self.has_streams() ==> (self.content matches Some(c) && self.group < c.epg@.len() && offers_streams(
            c.epg@[self.group as int],
        ))
    }

    /// The streams whose menu is shown.
    pub open spec fn current_items(&self) -> Seq<StreamItem> {
        entry_items(self.content.unwrap(), self.group as int)
    }

    /// The schedule's date.
    pub open spec fn date_view(&self) -> Seq<char> {
        self.schedule.unwrap().date.ymd_view()
    }

    /// Starts a run for the given date, or for today where none is given.
    pub fn start(host: String, given: Option<Date>) -> (r: (Session, Action))
        requires
            given matches Some(d) ==> d.wf(),
        ensures
            r.0.wf(),
            r.0.host == host,
            given matches Some(d) ==> r.0.stage == Stage::AwaitingSchedule && r.1 == Action::FetchSchedule(d),
            r.0.stage == Stage::AwaitingSchedule ==> (r.1 matches Action::FetchSchedule(d) && d.wf()),
            r.0.stage == Stage::AwaitingSchedule || (r.0.stage == Stage::Failed && r.1 is Fail),
    {
        let (stage, action) = match resolve_date(given) {
            Some(d) => (Stage::AwaitingSchedule, Action::FetchSchedule(d)),
            None => (Stage::Failed, Action::Fail(String::from_str("Today's date is out of range"))),
        };
        let s = Session { host, stage, schedule: None, content: None, group: 0 };
        (s, action)
    }

    /// The stream menu of the entry at `group`.
    fn ask_stream(&self) -> (r: Action)
        requires
            self.has_streams(),
            self.wf(),
        ensures
            r matches Action::AskStream(lines) && is_stream_menu(lines@, self.current_items()),
    {
        let content = self.content.as_ref().unwrap();
        match &content.epg[self.group].items {
            Some(items) => Action::AskStream(stream_menu(items)),
            None => Action::AskStream(Vec::new()),
        }
    }

    /// Takes the outcome of the last action and says what comes next.
    pub fn step(&mut self, event: Event) -> (r: Action)
        requires
            old(self).wf(),
        ensures
            final(self).wf(),
            final(self).host == old(self).host,
            old(self).stage == Stage::AwaitingSchedule ==> match event {
                Event::ScheduleFetched(s) => if s.wf() {
                    &&& final(self).stage == Stage::AwaitingGameChoice
                    &&& final(self).schedule == Some(s)
                    &&& r matches Action::AskGame(lines) && is_games_menu(lines@, s)
                } else {
                    final(self).stage == Stage::Failed && r is Fail
                },
                Event::FetchFailed(m) => final(self).stage == Stage::Failed && r == Action::Fail(m),
                _ => *final(self) == *old(self) && r is Ignore,
            },
            old(self).stage == Stage::AwaitingGameChoice ==> match event {
                Event::Chose(v) => {
                    let games = old(self).schedule.unwrap().games@;
                    if chosen_index(v as int, games.len() as int) is Some {
                        &&& final(self).stage == Stage::AwaitingContent
                        &&& final(self).schedule == old(self).schedule
                        &&& r == Action::FetchContent(games[v - 1].game_pk)
                    } else {
                        &&& final(self).stage == Stage::Failed
                        &&& r matches Action::Fail(m) && m@ == ChoiceError::InvalidGameChoice.message_view()
                    }
                },
                _ => *final(self) == *old(self) && r is Ignore,
            },
            old(self).stage == Stage::AwaitingContent ==> match event {
                Event::ContentFetched(c) => {
                    let groups = stream_groups_upto(c.epg@, c.epg@.len() as int);
                    if groups.len() == 0 {
                        final(self).stage == Stage::Done && r is Finish
                    } else {
                        &&& final(self).stage == Stage::AwaitingStreamChoice
                        &&& final(self).schedule == old(self).schedule
                        &&& final(self).content == Some(c)
                        &&& final(self).group == groups[0]
                        &&& r matches Action::AskStream(lines) && is_stream_menu(lines@, entry_items(c, groups[0]))
                    }
                },
                Event::FetchFailed(m) => final(self).stage == Stage::Failed && r == Action::Fail(m),
                _ => *final(self) == *old(self) && r is Ignore,
            },
            old(self).stage == Stage::AwaitingStreamChoice ==> match event {
                Event::Chose(v) => {
                    let items = old(self).current_items();
                    if chosen_index(v as int, items.len() as int) is Some {
                        &&& final(self).stage == Stage::ShowingUrl
                        &&& final(self).schedule == old(self).schedule
                        &&& final(self).content == old(self).content
                        &&& final(self).group == old(self).group
                        &&& r matches Action::ShowUrl(u) && u@ == url_chars(
                            old(self).host@,
                            old(self).date_view(),
                            items[v - 1].media_playback_id@,
                        )
                    } else {
                        &&& final(self).stage == Stage::Failed
                        &&& r matches Action::Fail(m) && m@ == ChoiceError::InvalidStreamChoice.message_view()
                    }
                },
                _ => *final(self) == *old(self) && r is Ignore,
            },
            old(self).stage == Stage::ShowingUrl ==> match event {
                Event::UrlShown => final(self).stage == Stage::Done && r is Finish,
                _ => *final(self) == *old(self) && r is Ignore,
            },
            old(self).stage == Stage::Done || old(self).stage == Stage::Failed ==> *final(self) == *old(self)
                && r is Ignore,
    {
        match self.stage {
            Stage::AwaitingSchedule => match event {
                Event::ScheduleFetched(s) => {
                    if s.is_well_formed() {
                        let lines = game_menu(&s.games);
                        self.schedule = Some(s);
                        self.stage = Stage::AwaitingGameChoice;
                        Action::AskGame(lines)
                    } else {
                        self.stage = Stage::Failed;
                        Action::Fail(String::from_str("Schedule out of range"))
                    }
                },
                Event::FetchFailed(m) => {
                    self.stage = Stage::Failed;
                    Action::Fail(m)
                },
                _ => Action::Ignore,
            },
            Stage::AwaitingGameChoice => match event {
                Event::Chose(v) => {
                    let schedule = self.schedule.as_ref().unwrap();
                    match select_game(&schedule.games, v) {
                        Ok(game) => {
                            let pk = game.game_pk;
                            self.stage = Stage::AwaitingContent;
                            Action::FetchContent(pk)
                        },
                        Err(e) => {
                            self.stage = Stage::Failed;
                            Action::Fail(e.message())
                        },
                    }
                },
                _ => Action::Ignore,
            },
            Stage::AwaitingContent => match event {
                Event::ContentFetched(c) => {
                    let groups = stream_groups(&c);
                    if groups.len() == 0 {
                        self.stage = Stage::Done;
                        Action::Finish
                    } else {
                        self.content = Some(c);
                        proof {
                            lemma_stream_groups_offer(c.epg@, c.epg@.len() as int);
                            assert(groups@.map_values(|i: usize| i as int)[0] == groups@[0] as int);
                        }
                        self.group = groups[0];
                        self.stage = Stage::AwaitingStreamChoice;
                        self.ask_stream()
                    }
                },
                Event::FetchFailed(m) => {
                    self.stage = Stage::Failed;
                    Action::Fail(m)
                },
                _ => Action::Ignore,
            },
            Stage::AwaitingStreamChoice => match event {
                Event::Chose(v) => {
                    let content = self.content.as_ref().unwrap();
                    match &content.epg[self.group].items {
                        Some(items) => {
                            let schedule = self.schedule.as_ref().unwrap();
                            match playback_url(self.host.as_str(), schedule, items, v) {
                                Ok(url) => {
                                    self.stage = Stage::ShowingUrl;
                                    Action::ShowUrl(url)
                                },
                                Err(e) => {
                                    self.stage = Stage::Failed;
                                    Action::Fail(e.message())
                                },
                            }
                        },
                        None => Action::Ignore,
                    }
                },
                _ => Action::Ignore,
            },
            Stage::ShowingUrl => match event {
                Event::UrlShown => {
                    self.stage = Stage::Done;
                    Action::Finish
                },
                _ => Action::Ignore,
            },
            Stage::Done | Stage::Failed => Action::Ignore,
        }
    }
}

} // verus!
