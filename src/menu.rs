//! Numbered menus and the choices made from them.
use crate::calendar::{local_clock, ClockTime};
use crate::schedule::{Game, StreamItem};
use crate::text::{decimal, decimal_chars};
use vstd::prelude::*;

verus! {

/// The index that the menu position `v` stands for, among `n` entries: menu
/// positions start at 1.
pub open spec fn chosen_index(v: int, n: int) -> Option<int> {
    if 1 <= v <= n {
        Some(v - 1)
    } else {
        None
    }
}

/// Whether `value` is a position of a menu of `count` entries.
pub fn is_valid_choice(value: usize, count: usize) -> (r: bool)
    ensures
        r == chosen_index(value as int, count as int) is Some,
{
    value > 0 && value <= count
}

/// Each entry of a menu has the position of its index plus one, and choosing
/// that position gives back that index and no other.
pub proof fn lemma_menu_position_round_trip(i: int, n: int)
    requires
        0 <= i < n,
    ensures
        chosen_index(i + 1, n) == Some(i),
        forall|v: int| chosen_index(v, n) == Some(i) ==> v == i + 1,
{
}

/// `<position>) <time> - <away> @ <home>`.
pub open spec fn game_line_chars(position: nat, time: Seq<char>, away: Seq<char>, home: Seq<char>) -> Seq<char> {
    decimal_chars(position) + seq![')', ' '] + time + seq![' ', '-', ' '] + away + seq![' ', '@', ' '] + home
}

/// `<position>) <feed type>`.
pub open spec fn stream_line_chars(position: nat, feed_type: Seq<char>) -> Seq<char> {
    decimal_chars(position) + seq![')', ' '] + feed_type
}

/// The menu line of a game at `position`, kicking off at `clock`.
pub fn game_line(position: usize, clock: &ClockTime, game: &Game) -> (r: String)
    requires
        clock.wf(),
    ensures
        r@ == game_line_chars(position as nat, clock.text_view(), game.away@, game.home@),
{
    let mut s = decimal(position);
    proof {
        reveal_strlit(") ");
        reveal_strlit(" - ");
        reveal_strlit(" @ ");
    }
    s.append(") ");
    let t = clock.text();
    s.append(t.as_str());
    s.append(" - ");
    s.append(game.away.as_str());
    s.append(" @ ");
    s.append(game.home.as_str());
    assert(s@ =~= game_line_chars(position as nat, clock.text_view(), game.away@, game.home@));
    s
}

/// The game menu, given the kickoff time of each game on the local clock.
pub fn game_menu_lines(games: &Vec<Game>, clocks: &Vec<ClockTime>) -> (r: Vec<String>)
    requires
        clocks@.len() == games@.len(),
        forall|i: int| 0 <= i < clocks@.len() ==> #[trigger] clocks@[i].wf(),
    ensures
        r@.len() == games@.len(),
        forall|i: int|
            0 <= i < r@.len() ==> #[trigger] r@[i]@ == game_line_chars(
                (i + 1) as nat,
                clocks@[i].text_view(),
                games@[i].away@,
                games@[i].home@,
            ),
{
    let mut lines: Vec<String> = Vec::new();
    let mut i: usize = 0;
    while i < games.len()
        invariant
            clocks@.len() == games@.len(),
            forall|k: int| 0 <= k < clocks@.len() ==> #[trigger] clocks@[k].wf(),
            i <= games@.len(),
            lines@.len() == i,
            forall|k: int|
                0 <= k < i ==> #[trigger] lines@[k]@ == game_line_chars(
                    (k + 1) as nat,
                    clocks@[k].text_view(),
                    games@[k].away@,
                    games@[k].home@,
                ),
        decreases games@.len() - i,
    {
        let line = game_line(i + 1, &clocks[i], &games[i]);
        lines.push(line);
        i = i + 1;
    }
    lines
}

/// The kickoff time of each game on the machine's clock.
pub fn kickoff_clocks(games: &Vec<Game>) -> (r: Vec<ClockTime>)
    requires
        forall|i: int| 0 <= i < games@.len() ==> #[trigger] games@[i].wf(),
    ensures
        r@.len() == games@.len(),
        forall|i: int| 0 <= i < r@.len() ==> #[trigger] r@[i].wf(),
{
    let mut clocks: Vec<ClockTime> = Vec::new();
    let mut i: usize = 0;
    while i < games.len()
        invariant
            forall|k: int| 0 <= k < games@.len() ==> #[trigger] games@[k].wf(),
            i <= games@.len(),
            clocks@.len() == i,
            forall|k: int| 0 <= k < i ==> #[trigger] clocks@[k].wf(),
        decreases games@.len() - i,
    {
        assert(games@[i as int].wf());
        clocks.push(local_clock(games[i].kickoff));
        i = i + 1;
    }
    clocks
}

/// Whether `line` is the menu line of `game` at `position` for some time of day.
pub open spec fn is_game_line(line: Seq<char>, position: nat, game: Game) -> bool {
    exists|c: ClockTime| c.wf() && line == game_line_chars(position, c.text_view(), game.away@, game.home@)
}

/// The game menu: one line per game, numbered from 1 in the schedule's
/// order, each with the kickoff time on the machine's clock.
pub fn game_menu(games: &Vec<Game>) -> (r: Vec<String>)
    requires
        forall|i: int| 0 <= i < games@.len() ==> #[trigger] games@[i].wf(),
    ensures
        r@.len() == games@.len(),
        forall|i: int| 0 <= i < r@.len() ==> #[trigger] is_game_line(r@[i]@, (i + 1) as nat, games@[i]),
{
    let clocks = kickoff_clocks(games);
    let lines = game_menu_lines(games, &clocks);
    assert forall|i: int| 0 <= i < lines@.len() implies #[trigger] is_game_line(
        lines@[i]@,
        (i + 1) as nat,
        games@[i],
    ) by {
        let c = clocks@[i];
        assert(c.wf());
    }
    lines
}

/// The stream menu: one line per stream, numbered from 1 in the given order.
pub fn stream_menu(items: &Vec<StreamItem>) -> (r: Vec<String>)
    ensures
        r@.len() == items@.len(),
        forall|i: int|
            0 <= i < r@.len() ==> #[trigger] r@[i]@ == stream_line_chars((i + 1) as nat, items@[i].media_feed_type@),
{
    let mut lines: Vec<String> = Vec::new();
    let mut i: usize = 0;
    while i < items.len()
        invariant
            i <= items@.len(),
            lines@.len() == i,
            forall|k: int|
                0 <= k < i ==> #[trigger] lines@[k]@ == stream_line_chars((k + 1) as nat, items@[k].media_feed_type@),
        decreases items@.len() - i,
    {
        let mut s = decimal(i + 1);
        proof {
            reveal_strlit(") ");
        }
        s.append(") ");
        s.append(items[i].media_feed_type.as_str());
        assert(s@ =~= stream_line_chars((i + 1) as nat, items@[i as int].media_feed_type@));
        lines.push(s);
        i = i + 1;
    }
    lines
}

} // verus!
