use vstd::prelude::*;
use crate::clock::{format_utc, utc_display_of, valid_timestamp, MONTH_SECONDS, WEEK_SECONDS};
use crate::entry::Entry;
use crate::text::{lex_ge, str_eq, str_ge};

verus! {

/// The time window a query ranges over. Any duration selector other than
/// `"weekly"` and `"monthly"` means the unbounded window.
#[derive(PartialEq, Eq, Structural, Clone, Copy, Debug)]
pub enum Window {
    Weekly,
    Monthly,
    AllTime,
}

/// Which window a duration selector names.
pub open spec fn window_of(duration: Seq<char>) -> Window {
    if duration == "weekly"@ {
        Window::Weekly
    } else if duration == "monthly"@ {
        Window::Monthly
    } else {
        Window::AllTime
    }
}

/// How far the window reaches back, in seconds; the unbounded window does
/// not reach back at all.
pub open spec fn window_len_seconds(w: Window) -> int {
    match w {
        Window::Weekly => WEEK_SECONDS as int,
        Window::Monthly => MONTH_SECONDS as int,
        Window::AllTime => 0,
    }
}

/// The query time, shifted back by the window, stays inside the range the
/// date formatter accepts.
pub open spec fn now_in_range(w: Window, now_secs: int) -> bool {
    w is AllTime || (valid_timestamp(now_secs) && valid_timestamp(
        now_secs - window_len_seconds(w),
    ))
}

/// Whether an entry falls in the window: its stored timestamp string is at
/// least the window's lower bound, rendered the way insertion times are
/// rendered. The unbounded window holds every entry.
pub open spec fn in_window(w: Window, e: Entry, now_secs: int, now_nanos: int) -> bool {
    w is AllTime || lex_ge(
        e.datetime@,
        utc_display_of(now_secs - window_len_seconds(w), now_nanos),
    )
}

/// The window named by a duration selector.
pub fn classify_duration(duration: &str) -> (w: Window)
    ensures
        w == window_of(duration@),
{
    if str_eq(duration, "weekly") {
        Window::Weekly
    } else if str_eq(duration, "monthly") {
        Window::Monthly
    } else {
        Window::AllTime
    }
}

/// The lower bound of the window as a timestamp string, or `None` for the
/// unbounded window.
pub fn window_bound(duration: &str, now_secs: i64, now_nanos: u32) -> (r: Option<String>)
    requires
        now_in_range(window_of(duration@), now_secs as int),
        now_nanos < 1_000_000_000,
    ensures
        (r is None) == (window_of(duration@) is AllTime),
        (r matches Some(b) ==> b@ == utc_display_of(
            now_secs - window_len_seconds(window_of(duration@)),
            now_nanos as int,
        )),
{
    let w = classify_duration(duration);
    match w {
        Window::AllTime => None,
        Window::Weekly => Some(format_utc(now_secs - WEEK_SECONDS, now_nanos)),
        Window::Monthly => Some(format_utc(now_secs - MONTH_SECONDS, now_nanos)),
    }
}

/// Whether the entry's stored timestamp is at least the given bound, with
/// `None` standing for the unbounded window.
pub(crate) fn entry_in_window(e: &Entry, bound: &Option<String>, w: Ghost<Window>, now_secs: Ghost<int>, now_nanos: Ghost<int>) -> (r: bool)
    requires
        (bound is None) == (w@ is AllTime),
        (bound matches Some(b) ==> b@ == utc_display_of(
            now_secs@ - window_len_seconds(w@),
            now_nanos@,
        )),
    ensures
        r == in_window(w@, *e, now_secs@, now_nanos@),
{
    match bound {
        Option::None => true,
        Option::Some(b) => str_ge(e.datetime.as_str(), b.as_str()),
    }
}

} // verus!
