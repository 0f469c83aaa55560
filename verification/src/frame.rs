//! The status line that is drawn each tick: the time in UTC, a fixed label,
//! and the fetched text.

use chrono::{MappedLocalTime, TimeZone, Utc};
use vstd::prelude::*;
use vstd::string::StringExecFns;

verus! {

/// What stands between the time and the fetched text.
pub const FRAME_LABEL: &'static str = "\nMSC,RU:";

/// How chrono writes the UTC date and time that lies `secs` seconds after
/// the Unix epoch, or `None` where chrono has no date for it.
pub uninterp spec fn utc_text(secs: int) -> Option<Seq<char>>;

/// Calls chrono's `Utc.timestamp_opt(secs, 0)` and, where that yields a
/// single time, writes it out through its `Display` impl.
///
/// Nothing is claimed of the digits. The contract only gives the outcome a
/// name, [`utc_text`]: chrono computes both steps from `secs` alone, with no
/// time zone database, locale or clock involved.
#[verifier::external_body]
fn format_utc(secs: i64) -> (r: Option<String>)
    ensures
        match r {
            Some(s) => utc_text(secs as int) == Some(s@),
            None => utc_text(secs as int) is None,
        },
{
    match Utc.timestamp_opt(secs, 0) {
        MappedLocalTime::Single(time) => Some(time.to_string()),
        MappedLocalTime::Ambiguous(_, _) => None,
        MappedLocalTime::None => None,
    }
}

/// A written-out time and a text, joined into one status line.
pub open spec fn frame_text(timestamp: Seq<char>, text: Seq<char>) -> Seq<char> {
    timestamp + FRAME_LABEL@ + text
}

/// The status line for a clock reading of `secs` seconds since the epoch.
///
/// The reading is taken as a signed count of seconds, as the clock's
/// unsigned value reinterpreted; there is no line for a reading that chrono
/// has no date for.
pub open spec fn frame_at(secs: u64, text: Seq<char>) -> Option<Seq<char>> {
    match utc_text(secs as i64 as int) {
        Some(timestamp) => Some(frame_text(timestamp, text)),
        None => None,
    }
}

/// Joins a written-out time and a text into one status line.
pub fn compose_frame(timestamp: &str, text: &str) -> (frame: String)
    ensures
        frame@ == frame_text(timestamp@, text@),
{
    let mut frame = timestamp.to_owned();
    frame.append(FRAME_LABEL);
    frame.append(text);
    frame
}

/// Composes the status line for a clock reading, see [`frame_at`].
pub fn render_frame(secs: u64, text: &str) -> (frame: Option<String>)
    ensures
        match frame {
            Some(f) => frame_at(secs, text@) == Some(f@),
            None => frame_at(secs, text@) is None,
        },
{
    match format_utc(secs as i64) {
        Some(timestamp) => Some(compose_frame(timestamp.as_str(), text)),
        None => None,
    }
}

} // verus!
