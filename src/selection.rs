//! Choosing a game and a stream, and finding the broadcasts that offer streams.
use crate::menu::{chosen_index, is_valid_choice};
use crate::schedule::{EpgEntry, Game, GameContent, StreamItem};
use crate::text::same_text;
use vstd::prelude::*;

verus! {

/// What a choice that names no menu entry is reported as.
#[derive(Clone, Copy, Debug, PartialEq, Eq, Structural)]
pub enum ChoiceError {
    InvalidGameChoice,
    InvalidStreamChoice,
}

impl ChoiceError {
    pub open spec fn message_view(&self) -> Seq<char> {
        match self {
            ChoiceError::InvalidGameChoice => "Invalid game choice"@,
            ChoiceError::InvalidStreamChoice => "Invalid stream choice"@,
        }
    }

    /// The message this error is reported with.
    pub fn message(&self) -> (r: String)
        ensures
            r@ == self.message_view(),
    {
        match self {
            ChoiceError::InvalidGameChoice => String::from_str("Invalid game choice"),
            ChoiceError::InvalidStreamChoice => String::from_str("Invalid stream choice"),
        }
    }
}

/// The game at menu position `choice`.
pub fn select_game(games: &Vec<Game>, choice: usize) -> (r: Result<&Game, ChoiceError>)
    ensures
        r is Ok <==> chosen_index(choice as int, games@.len() as int) is Some,
        r matches Ok(g) ==> *g == games@[choice - 1],
        r matches Err(e) ==> e == ChoiceError::InvalidGameChoice,
{
    if is_valid_choice(choice, games.len()) {
        Ok(&games[choice - 1])
    } else {
        Err(ChoiceError::InvalidGameChoice)
    }
}

/// The stream at menu position `choice`.
pub fn select_stream(items: &Vec<StreamItem>, choice: usize) -> (r: Result<&StreamItem, ChoiceError>)
    ensures
        r is Ok <==> chosen_index(choice as int, items@.len() as int) is Some,
        r matches Ok(s) ==> *s == items@[choice - 1],
        r matches Err(e) ==> e == ChoiceError::InvalidStreamChoice,
{
    if is_valid_choice(choice, items.len()) {
        Ok(&items[choice - 1])
    } else {
        Err(ChoiceError::InvalidStreamChoice)
    }
}

/// Whether a guide entry is the streaming broadcast and lists at least one stream.
pub open spec fn offers_streams(e: EpgEntry) -> bool {
    &&& e.title@ == "NHLTV"@
    &&& e.items matches Some(v) && v@.len() > 0
}

/// The indices, in order, of the first `n` guide entries that offer streams.
pub open spec fn stream_groups_upto(epg: Seq<EpgEntry>, n: int) -> Seq<int>
    decreases n,
{
    if n <= 0 {
        Seq::empty()
    } else if offers_streams(epg[n - 1]) {
        stream_groups_upto(epg, n - 1).push(n - 1)
    } else {
        stream_groups_upto(epg, n - 1)
    }
}

/// Each index that the first `n` entries give is one of them, and it offers
/// streams.
pub proof fn lemma_stream_groups_offer(epg: Seq<EpgEntry>, n: int)
    requires
        0 <= n <= epg.len(),
    ensures
        forall|k: int|
            0 <= k < stream_groups_upto(epg, n).len() ==> {
                let g = #[trigger] stream_groups_upto(epg, n)[k];
                0 <= g < n && offers_streams(epg[g])
            },
    decreases n,
{
    if n > 0 {
        lemma_stream_groups_offer(epg, n - 1);
        let prev = stream_groups_upto(epg, n - 1);
        let cur = stream_groups_upto(epg, n);
        assert forall|k: int| 0 <= k < cur.len() implies {
            let g = #[trigger] cur[k];
            0 <= g < n && offers_streams(epg[g])
        } by {
            if k < prev.len() {
                assert(cur[k] == prev[k]);
            }
        }
    }
}

/// Whether a guide entry offers streams.
pub fn entry_offers_streams(e: &EpgEntry) -> (r: bool)
    ensures
        r == offers_streams(*e),
{
    proof {
        reveal_strlit("NHLTV");
    }
    if !same_text(e.title.as_str(), "NHLTV") {
        return false;
    }
    match &e.items {
        Some(v) => v.len() > 0,
        None => false,
    }
}

/// The indices of the guide entries that offer streams, in the guide's order;
/// the first of them is the one whose stream menu is shown.
pub fn stream_groups(content: &GameContent) -> (r: Vec<usize>)
    ensures
        r@.map_values(|i: usize| i as int) == stream_groups_upto(content.epg@, content.epg@.len() as int),
{
    let mut r: Vec<usize> = Vec::new();
    let mut i: usize = 0;
    while i < content.epg.len()
        invariant
            i <= content.epg@.len(),
            r@.map_values(|k: usize| k as int) == stream_groups_upto(content.epg@, i as int),
        decreases content.epg@.len() - i,
    {
        if entry_offers_streams(&content.epg[i]) {
            r.push(i);
            assert(r@.map_values(|k: usize| k as int) =~= stream_groups_upto(content.epg@, i as int).push(i as int));
        }
        i = i + 1;
    }
    r
}

} // verus!
