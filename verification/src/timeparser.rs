//! Spans of time in words.

use vstd::prelude::*;
use crate::decimal::{decimal, i64_to_string};

verus! {

/// The quotient of `a` by a positive `b`, rounded towards zero.
pub open spec fn whole(a: int, b: int) -> int {
    if a >= 0 {
        a / b
    } else {
        -((-a) / b)
    }
}

/// How long ago something started, in the largest unit that has gone by at
/// least once: days, hours, minutes with the seconds left over, or seconds.
/// A span that is negative is given in seconds.
pub open spec fn humanised(seconds: int) -> Seq<char> {
    if seconds >= 86400 {
        "Started "@ + decimal(seconds / 86400) + " days ago"@
    } else if seconds >= 3600 {
        "Started "@ + decimal(seconds / 3600) + " hours ago"@
    } else if seconds >= 60 {
        "Started "@ + decimal(seconds / 60) + " minutes and "@ + decimal(seconds % 60)
            + " seconds ago"@
    } else {
        "Started "@ + decimal(seconds) + " seconds ago"@
    }
}

/// A span as whole minutes and the seconds left over, with a colon between
/// them. Both parts are rounded towards zero, so both are negative or zero for
/// a negative span.
pub open spec fn minutes_and_seconds(seconds: int) -> Seq<char> {
    decimal(whole(seconds, 60)) + ":"@ + decimal(seconds - whole(seconds, 60) * 60)
}

/// The number made of the first ten digits of `t`, or `t` itself where it
/// has no more than ten.
pub open spec fn leading_ten(t: nat) -> nat
    decreases t,
{
    if t < 10_000_000_000 {
        t
    } else {
        leading_ten(t / 10)
    }
}

/// Says how long ago something started that began `seconds` seconds ago.
pub fn humanise_time(seconds: i64) -> (text: String)
    ensures
        text@ == humanised(seconds as int),
{
    let mut text = String::from_str("Started ");
    if seconds >= 86400 {
        text.append(i64_to_string(seconds / 86400).as_str());
        text.append(" days ago");
    } else if seconds >= 3600 {
        text.append(i64_to_string(seconds / 3600).as_str());
        text.append(" hours ago");
    } else if seconds >= 60 {
        text.append(i64_to_string(seconds / 60).as_str());
        text.append(" minutes and ");
        text.append(i64_to_string(seconds % 60).as_str());
        text.append(" seconds ago");
    } else {
        text.append(i64_to_string(seconds).as_str());
        text.append(" seconds ago");
    }
    text
}

/// Writes a span of `seconds` seconds as minutes and seconds.
pub fn min_sec_parse(seconds: i64) -> (text: String)
    ensures
        text@ == minutes_and_seconds(seconds as int),
{
    let mut text;
    if seconds >= 0 {
        text = i64_to_string(seconds / 60);
        text.append(":");
        text.append(i64_to_string(seconds % 60).as_str());
    } else {
        let magnitude: u64 = (-(seconds + 1)) as u64 + 1;
        let minutes: u64 = magnitude / 60;
        let left: u64 = magnitude % 60;
        text = i64_to_string(-(minutes as i64));
        text.append(":");
        text.append(i64_to_string(-(left as i64)).as_str());
    }
    text
}

/// Cuts a count of milliseconds down to its first ten digits, which is the
/// count of seconds for any moment of this age.
pub fn parse_serenity(t: u64) -> (seconds: i64)
    ensures
        seconds == leading_ten(t as nat),
{
    let mut left: u64 = t;
    while left >= 10_000_000_000
        invariant
            leading_ten(left as nat) == leading_ten(t as nat),
        decreases left,
    {
        left = left / 10;
    }
    left as i64
}

} // verus!
