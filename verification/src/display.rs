//! Plain-text rendering helpers.
//!
//! These produce the text fragments the presentation layers show: a
//! human-readable uptime, a truncated process name, a state icon.  Color
//! and layout stay outside the engine.

use vstd::prelude::*;

use crate::strutil::{ci_eq, dec_str, eq_ignore_case, string_of, u64_to_string};

verus! {

/// The human-readable uptime: seconds alone under a minute, then minutes
/// and seconds, then hours and minutes, then days and hours.
pub open spec fn uptime_text(secs: u64) -> Seq<char> {
    if secs < 60 {
        dec_str(secs as int) + "s"@
    } else if secs < 3600 {
        dec_str(secs as int / 60) + "m "@ + dec_str(secs as int % 60) + "s"@
    } else if secs < 86400 {
        dec_str(secs as int / 3600) + "h "@ + dec_str((secs as int % 3600) / 60) + "m"@
    } else {
        dec_str(secs as int / 86400) + "d "@ + dec_str((secs as int % 86400) / 3600) + "h"@
    }
}

/// Render an uptime in seconds as [`uptime_text`] describes.
pub fn format_uptime(secs: u64) -> (r: String)
    ensures
        r@ == uptime_text(secs),
{
    if secs < 60 {
        let mut s = u64_to_string(secs);
        s.append("s");
        s
    } else if secs < 3600 {
        let mut s = u64_to_string(secs / 60);
        s.append("m ");
        let t = u64_to_string(secs % 60);
        s.append(t.as_str());
        s.append("s");
        s
    } else if secs < 86400 {
        let mut s = u64_to_string(secs / 3600);
        s.append("h ");
        let t = u64_to_string((secs % 3600) / 60);
        s.append(t.as_str());
        s.append("m");
        s
    } else {
        let mut s = u64_to_string(secs / 86400);
        s.append("d ");
        let t = u64_to_string((secs % 86400) / 3600);
        s.append(t.as_str());
        s.append("h");
        s
    }
}

/// A string cut to at most `max` characters, the last three of a cut
/// string spent on an ellipsis.
pub open spec fn truncate_spec(s: Seq<char>, max: int) -> Seq<char> {
    if s.len() > max {
        s.subrange(0, max - 3) + "..."@
    } else {
        s
    }
}

/// Truncate a string to at most `max` characters, marking a cut with
/// `...`.
pub fn truncate(s: &str, max: usize) -> (r: String)
    requires
        max >= 3,
    ensures
        r@ == truncate_spec(s@, max as int),
{
    let n = s.unicode_len();
    if n > max {
        let mut r = string_of(s.substring_char(0, max - 3));
        r.append("...");
        r
    } else {
        string_of(s)
    }
}

/// The status icon of a socket state, compared ASCII-case-insensitively:
/// a filled dot for a listening socket, distinct rings for established,
/// time-wait and close-wait states, an empty ring for anything else.
pub open spec fn status_icon_spec(state: Seq<char>) -> Seq<char> {
    if ci_eq(state, "LISTEN"@) || ci_eq(state, "LISTENING"@) {
        "\u{25cf}"@
    } else if ci_eq(state, "ESTABLISHED"@) {
        "\u{25c9}"@
    } else if ci_eq(state, "TIME_WAIT"@) {
        "\u{25cc}"@
    } else if ci_eq(state, "CLOSE_WAIT"@) {
        "\u{25ce}"@
    } else {
        "\u{25cb}"@
    }
}

/// The status icon for a socket state.
pub fn port_status_icon(state: &str) -> (r: &'static str)
    ensures
        r@ == status_icon_spec(state@),
{
    if eq_ignore_case(state, "LISTEN") || eq_ignore_case(state, "LISTENING") {
        "\u{25cf}"
    } else if eq_ignore_case(state, "ESTABLISHED") {
        "\u{25c9}"
    } else if eq_ignore_case(state, "TIME_WAIT") {
        "\u{25cc}"
    } else if eq_ignore_case(state, "CLOSE_WAIT") {
        "\u{25ce}"
    } else {
        "\u{25cb}"
    }
}

} // verus!
