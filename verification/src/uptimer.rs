//! How long the process has been up.

use vstd::prelude::*;
use num_integer::Integer;
use crate::decimal::{decimal, i64_to_string};

verus! {

/// The quotient of `a` by `b`, rounded towards zero.
pub open spec fn truncated_quotient(a: int, b: int) -> int {
    if a >= 0 && b > 0 {
        a / b
    } else if a >= 0 {
        -(a / (-b))
    } else if b > 0 {
        -((-a) / b)
    } else {
        (-a) / (-b)
    }
}

/// Calls `num_integer::Integer::div_rem` on two `i64`, which is the pair of
/// Rust's `/` and `%`: the quotient rounded towards zero, and what is left of
/// `a` once the quotient times `b` is taken away. Division by zero and the
/// one quotient that does not fit are left out, since both panic.
#[verifier::external_body]
fn div_rem(a: i64, b: i64) -> (r: (i64, i64))
    requires
        b != 0,
        !(a == i64::MIN && b == -1),
    ensures
        r.0 == truncated_quotient(a as int, b as int),
        r.1 == a - r.0 * b,
{
    a.div_rem(&b)
}

/// A span of seconds as days, hours, minutes and seconds, each rounded
/// towards zero.
pub open spec fn uptime_text(seconds: int) -> Seq<char> {
    let minutes = truncated_quotient(seconds, 60);
    let hours = truncated_quotient(minutes, 60);
    let days = truncated_quotient(hours, 24);
    decimal(days) + "d "@ + decimal(hours - days * 24) + "h "@ + decimal(minutes - hours * 60)
        + "m "@ + decimal(seconds - minutes * 60) + "s"@
}

/// Remembers when the process started.
#[derive(Clone, Copy, Debug, PartialEq, Eq)]
pub struct Uptimer {
    started_at: i64,
}

impl Uptimer {
    /// The moment of the start, in seconds since the epoch.
    pub closed spec fn started(&self) -> int {
        self.started_at as int
    }

    /// An uptimer for a process that started at `now`, given in seconds
    /// since the epoch.
    pub fn new(now: i64) -> (uptimer: Uptimer)
        ensures
            uptimer.started() == now,
    {
        Uptimer { started_at: now }
    }

    /// Says how long the process has been up at `now`, given in seconds
    /// since the epoch.
    pub fn uptime_string(&self, now: i64) -> (text: String)
        requires
            i64::MIN <= now - self.started() <= i64::MAX,
        ensures
            text@ == uptime_text(now - self.started()),
    {
        let seconds: i64 = now - self.started_at;
        let (minutes, seconds) = div_rem(seconds, 60);
        let (hours, minutes) = div_rem(minutes, 60);
        let (days, hours) = div_rem(hours, 24);
        let mut text = i64_to_string(days);
        text.append("d ");
        text.append(i64_to_string(hours).as_str());
        text.append("h ");
        text.append(i64_to_string(minutes).as_str());
        text.append("m ");
        text.append(i64_to_string(seconds).as_str());
        text.append("s");
        text
    }
}

} // verus!
