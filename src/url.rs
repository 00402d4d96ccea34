//! The playback URL of a chosen stream.
use crate::calendar::Date;
use crate::menu::chosen_index;
use crate::schedule::{Schedule, StreamItem};
use crate::selection::{select_stream, ChoiceError};
use vstd::prelude::*;

verus! {

/// `<host>/getM3U8.php?league=nhl&date=<date>&id=<playback id>&cdn=akc`.
pub open spec fn url_chars(host: Seq<char>, date: Seq<char>, playback_id: Seq<char>) -> Seq<char> {
    host + "/getM3U8.php?league=nhl&date="@ + date + "&id="@ + playback_id + "&cdn=akc"@
}

/// The playback URL of a stream on a day.
pub fn stream_url(host: &str, date: &Date, playback_id: &str) -> (r: String)
    requires
        date.wf(),
    ensures
        r@ == url_chars(host@, date.ymd_view(), playback_id@),
{
    let mut s = String::from_str(host);
    s.append("/getM3U8.php?league=nhl&date=");
    let d = date.ymd();
    s.append(d.as_str());
    s.append("&id=");
    s.append(playback_id);
    s.append("&cdn=akc");
    s
}

/// The playback URL of the stream at menu position `choice`, on the
/// schedule's date.
pub fn playback_url(host: &str, schedule: &Schedule, items: &Vec<StreamItem>, choice: usize) -> (r: Result<String, ChoiceError>)
    requires
        schedule.date.wf(),
    ensures
        r is Ok <==> chosen_index(choice as int, items@.len() as int) is Some,
        r matches Ok(u) ==> u@ == url_chars(
            host@,
            schedule.date.ymd_view(),
            items@[choice - 1].media_playback_id@,
        ),
        r matches Err(e) ==> e == ChoiceError::InvalidStreamChoice,
{
    match select_stream(items, choice) {
        Ok(item) => Ok(stream_url(host, &schedule.date, item.media_playback_id.as_str())),
        Err(e) => Err(e),
    }
}

/// The URL carries the date exactly as `YYYY-MM-DD`, right after `&date=`,
/// whatever the host and the stream; nothing of the clock enters it.
pub proof fn lemma_url_carries_date(host: Seq<char>, date: Date, playback_id: Seq<char>)
    requires
        date.wf(),
    ensures
        ({
            let u = url_chars(host, date.ymd_view(), playback_id);
            let at: int = host.len() as int + 29;
            &&& u.subrange(at - 6, at) == "&date="@
            &&& u.subrange(at, at + 10) == date.ymd_view()
        }),
{
    reveal_strlit("/getM3U8.php?league=nhl&date=");
    reveal_strlit("&date=");
    let u = url_chars(host, date.ymd_view(), playback_id);
    let at: int = host.len() as int + 29;
    assert(date.ymd_view().len() == 10);
    assert(u.subrange(at - 6, at) =~= "&date="@);
    assert(u.subrange(at, at + 10) =~= date.ymd_view());
}

} // verus!
