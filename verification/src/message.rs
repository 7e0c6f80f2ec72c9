//! Notification message rendering.
//!
//! Three pieces: a verified decimal formatter for the `(current/total)`
//! progress suffix, the rounding rule for the time shown when the countdown
//! resumes (exact seconds under a minute, otherwise rounded down to a whole
//! minute — only the displayed text is rounded, never the re-armed timer),
//! and the human-readable rendering of a number of seconds, which is done by
//! an outside formatter.

use vstd::prelude::*;
use vstd::string::StringExecFns;
use crate::config::LongBreakPolicy;

verus! {

/// The character for a single decimal digit.
pub open spec fn digit_char(d: nat) -> char {
    if d == 0 {
        '0'
    } else if d == 1 {
        '1'
    } else if d == 2 {
        '2'
    } else if d == 3 {
        '3'
    } else if d == 4 {
        '4'
    } else if d == 5 {
        '5'
    } else if d == 6 {
        '6'
    } else if d == 7 {
        '7'
    } else if d == 8 {
        '8'
    } else {
        '9'
    }
}

/// The usual decimal rendering of a natural number, most significant digit
/// first, with no leading zeros (a lone zero for 0).
pub open spec fn decimal_digits(n: nat) -> Seq<char>
    decreases n,
{
    if n < 10 {
        seq![digit_char(n)]
    } else {
        decimal_digits(n / 10).push(digit_char(n % 10))
    }
}

/// A one-character string for a single decimal digit.
fn digit_str(d: u32) -> (r: &'static str)
    requires
        d < 10,
    ensures
        r@ == seq![digit_char(d as nat)],
{
    proof {
        reveal_strlit("0");
        reveal_strlit("1");
        reveal_strlit("2");
        reveal_strlit("3");
        reveal_strlit("4");
        reveal_strlit("5");
        reveal_strlit("6");
        reveal_strlit("7");
        reveal_strlit("8");
        reveal_strlit("9");
    }
    match d {
        0 => "0",
        1 => "1",
        2 => "2",
        3 => "3",
        4 => "4",
        5 => "5",
        6 => "6",
        7 => "7",
        8 => "8",
        _ => "9",
    }
}

/// Renders `n` in decimal.
pub fn decimal_string(n: u32) -> (r: String)
    ensures
        r@ == decimal_digits(n as nat),
    decreases n,
{
    if n < 10 {
        String::from_str(digit_str(n))
    } else {
        let mut s = decimal_string(n / 10);
        s.append(digit_str(n % 10));
        proof {
            assert(s@ =~= decimal_digits((n / 10) as nat).push(digit_char((n % 10) as nat)));
        }
        s
    }
}

/// The number of seconds shown in the resume notification: exact when under a
/// minute, otherwise rounded down to a whole minute. The countdown itself is
/// re-armed with the exact remaining time; only the text is rounded.
pub open spec fn displayed_secs(remaining_ms: u64) -> u64 {
    let secs = remaining_ms as int / 1000;
    if secs < 60 {
        secs as u64
    } else {
        (secs - secs % 60) as u64
    }
}

/// What the outside duration formatter renders for a number of seconds.
pub uninterp spec fn human_duration_of(secs: u64) -> Seq<char>;

/// Relies on humantime::format_duration: the rendering of a duration depends
/// on the duration alone.
#[verifier::external_body]
fn format_secs(secs: u64) -> (r: String)
    ensures
        r@ == human_duration_of(secs),
{
    humantime::format_duration(std::time::Duration::from_secs(secs)).to_string()
}

/// Summary of the notification shown when entering a short break:
/// `Short break (current/total)` under a long-break policy, where `total`
/// counts the long break too, and a bare `Short break` otherwise.
pub open spec fn short_break_summary(new_count: u8, policy: Option<LongBreakPolicy>) -> Seq<char> {
    match policy {
        Some(p) => "Short break ("@ + decimal_digits(new_count as nat) + "/"@ + decimal_digits(
            p.threshold as nat + 1,
        ) + ")"@,
        None => "Short break"@,
    }
}

/// Renders the short-break summary.
pub fn short_break_summary_string(new_count: u8, policy: &Option<LongBreakPolicy>) -> (r: String)
    ensures
        r@ == short_break_summary(new_count, *policy),
{
    match policy {
        Some(p) => {
            let mut s = String::from_str("Short break (");
            let current = decimal_string(new_count as u32);
            s.append(current.as_str());
            s.append("/");
            let total = decimal_string(p.threshold as u32 + 1);
            s.append(total.as_str());
            s.append(")");
            proof {
                assert(s@ =~= short_break_summary(new_count, *policy));
            }
            s
        },
        None => String::from_str("Short break"),
    }
}

/// Summary of the notification shown when the countdown resumes after an idle
/// period: the rounded remaining time, then ` until next break`.
pub open spec fn resume_summary(remaining_ms: u64) -> Seq<char> {
    human_duration_of(displayed_secs(remaining_ms)) + " until next break"@
}

/// Renders the resume summary for the exact remaining time.
pub fn resume_summary_string(remaining_ms: u64) -> (r: String)
    ensures
        r@ == resume_summary(remaining_ms),
{
    let secs = remaining_ms / 1000;
    let shown = if secs < 60 {
        secs
    } else {
        secs - secs % 60
    };
    let mut s = format_secs(shown);
    s.append(" until next break");
    s
}

} // verus!
