use nhl_stream::calendar::{ClockTime, Date};
use nhl_stream::menu::{game_menu, game_menu_lines, is_valid_choice, stream_menu};
use nhl_stream::schedule::{EpgEntry, Game, GameContent, Schedule, StreamItem};
use nhl_stream::selection::{entry_offers_streams, select_game, select_stream, stream_groups, ChoiceError};
use nhl_stream::url::{playback_url, stream_url};

fn game(kickoff: i64, pk: u64, away: &str, home: &str) -> Game {
    Game { kickoff, game_pk: pk, away: away.to_string(), home: home.to_string() }
}

fn three_games() -> Vec<Game> {
    vec![
        game(1570316400, 2019020051, "Boston Bruins", "Toronto Maple Leafs"),
        game(1570320000, 2019020052, "New York Rangers", "Ottawa Senators"),
        game(1570330800, 2019020053, "Vegas Golden Knights", "Los Angeles Kings"),
    ]
}

fn item(feed: &str, id: &str) -> StreamItem {
    StreamItem { media_feed_type: feed.to_string(), media_playback_id: id.to_string() }
}

fn entry(title: &str, items: Option<Vec<StreamItem>>) -> EpgEntry {
    EpgEntry { title: title.to_string(), items }
}

fn schedule() -> Schedule {
    Schedule { date: Date::new(2019, 10, 5).unwrap(), games: three_games() }
}

#[test]
fn valid_choices_map_to_index_minus_one() {
    for n in 1..6usize {
        for v in 1..=n {
            assert!(is_valid_choice(v, n));
        }
    }
}

#[test]
fn out_of_range_choices_are_rejected() {
    assert!(!is_valid_choice(0, 3));
    assert!(!is_valid_choice(4, 3));
    assert!(!is_valid_choice(1, 0));
    assert!(!is_valid_choice(usize::MAX, 3));
}

#[test]
fn game_menu_of_three_games_has_three_numbered_lines() {
    let games = three_games();
    let clocks = vec![
        ClockTime { hour: 19, minute: 0 },
        ClockTime { hour: 20, minute: 0 },
        ClockTime { hour: 9, minute: 5 },
    ];
    let lines = game_menu_lines(&games, &clocks);
    assert_eq!(
        lines,
        vec![
            "1) 7:00 PM - Boston Bruins @ Toronto Maple Leafs".to_string(),
            "2) 8:00 PM - New York Rangers @ Ottawa Senators".to_string(),
            "3) 9:05 AM - Vegas Golden Knights @ Los Angeles Kings".to_string(),
        ]
    );
}

#[test]
fn game_menu_keeps_schedule_order() {
    let games = three_games();
    let lines = game_menu(&games);
    assert_eq!(lines.len(), 3);
    for (i, g) in games.iter().enumerate() {
        assert!(lines[i].starts_with(&format!("{}) ", i + 1)));
        assert!(lines[i].ends_with(&format!(" - {} @ {}", g.away, g.home)));
    }
}

#[test]
fn select_game_picks_by_position() {
    let games = three_games();
    assert_eq!(select_game(&games, 1).unwrap().game_pk, 2019020051);
    assert_eq!(select_game(&games, 2).unwrap().game_pk, 2019020052);
    assert_eq!(select_game(&games, 3).unwrap().game_pk, 2019020053);
}

#[test]
fn select_game_rejects_invalid_choice() {
    let games = three_games();
    assert_eq!(select_game(&games, 0).unwrap_err(), ChoiceError::InvalidGameChoice);
    assert_eq!(select_game(&games, 4).unwrap_err(), ChoiceError::InvalidGameChoice);
    assert_eq!(ChoiceError::InvalidGameChoice.message(), "Invalid game choice");
}

#[test]
fn select_stream_rejects_invalid_choice() {
    let items = vec![item("HOME", "101"), item("AWAY", "102")];
    assert_eq!(select_stream(&items, 2).unwrap().media_playback_id, "102");
    assert_eq!(select_stream(&items, 3).unwrap_err(), ChoiceError::InvalidStreamChoice);
    assert_eq!(select_stream(&items, 0).unwrap_err(), ChoiceError::InvalidStreamChoice);
    assert_eq!(ChoiceError::InvalidStreamChoice.message(), "Invalid stream choice");
}

#[test]
fn two_streams_give_two_lines_and_a_url() {
    let content = GameContent {
        epg: vec![
            entry("Extended Highlights", Some(vec![item("HIGHLIGHT", "1")])),
            entry("NHLTV", Some(vec![item("HOME", "65413"), item("AWAY", "65414")])),
        ],
    };
    assert_eq!(stream_groups(&content), vec![1]);
    let items = content.epg[1].items.as_ref().unwrap();
    assert_eq!(stream_menu(items), vec!["1) HOME".to_string(), "2) AWAY".to_string()]);
    let url = playback_url("http://host", &schedule(), items, 2).unwrap();
    assert!(url.contains("65414"));
    assert!(url.contains("2019-10-05"));
    assert_eq!(url, "http://host/getM3U8.php?league=nhl&date=2019-10-05&id=65414&cdn=akc");
}

#[test]
fn playback_url_rejects_invalid_choice() {
    let items = vec![item("HOME", "65413"), item("AWAY", "65414")];
    assert_eq!(playback_url("h", &schedule(), &items, 3), Err(ChoiceError::InvalidStreamChoice));
}

#[test]
fn no_streaming_entry_gives_no_stream_menu() {
    let content = GameContent { epg: vec![entry("Extended Highlights", Some(vec![item("HIGHLIGHT", "1")]))] };
    assert!(stream_groups(&content).is_empty());
    let empty = GameContent { epg: vec![entry("NHLTV", Some(vec![]))] };
    assert!(stream_groups(&empty).is_empty());
    let missing = GameContent { epg: vec![entry("NHLTV", None)] };
    assert!(stream_groups(&missing).is_empty());
    assert!(stream_groups(&GameContent { epg: vec![] }).is_empty());
}

#[test]
fn stream_groups_lists_every_streaming_entry() {
    let content = GameContent {
        epg: vec![
            entry("NHLTV", Some(vec![item("HOME", "1")])),
            entry("Audio", Some(vec![item("HOME", "2")])),
            entry("NHLTV", Some(vec![item("AWAY", "3")])),
        ],
    };
    assert_eq!(stream_groups(&content), vec![0, 2]);
    assert!(entry_offers_streams(&content.epg[0]));
    assert!(!entry_offers_streams(&content.epg[1]));
}

#[test]
fn url_carries_schedule_date() {
    let date = Date::new(2019, 1, 2).unwrap();
    let url = stream_url("https://example.org", &date, "abc");
    assert_eq!(url, "https://example.org/getM3U8.php?league=nhl&date=2019-01-02&id=abc&cdn=akc");
    let at = "https://example.org".len() + 29;
    assert_eq!(&url[at - 6..at], "&date=");
    assert_eq!(&url[at..at + 10], date.ymd());
}

#[test]
fn schedule_well_formedness() {
    assert!(schedule().is_well_formed());
    let mut s = schedule();
    s.games.push(game(i64::MAX, 1, "A", "B"));
    assert!(!s.is_well_formed());
    let bad_date = Schedule { date: Date { year: 2019, month: 2, day: 30 }, games: vec![] };
    assert!(!bad_date.is_well_formed());
}
