//! The per-session visit counter.

use vstd::prelude::*;
use vstd::string::StringExecFns;
use crate::text::{decimal, decimal_string};

verus! {

/// The session key under which the counter is stored.
pub const COUNTER_KEY: &'static str = "counter";

/// The count a session holds: what was stored, or zero on its first visit.
pub open spec fn count_of(stored: Option<usize>) -> nat {
    match stored {
        Some(n) => n as nat,
        None => 0,
    }
}

/// The outcome of one visit: the count to store and the page body.
pub struct CounterVisit {
    pub next: usize,
    pub body: String,
}

/// Counts one visit. The body reports the count as it was before this
/// visit; the count to store is one more.
pub fn visit_counter(stored: Option<usize>) -> (r: CounterVisit)
    requires
        count_of(stored) < usize::MAX,
    ensures
        r.next == count_of(stored) + 1,
        r.body@ == "Current count: "@ + decimal(count_of(stored)),
{
    let count: usize = match stored {
        Some(n) => n,
        None => 0,
    };
    let mut body = String::from_str("Current count: ");
    let digits = decimal_string(count);
    body.append(digits.as_str());
    CounterVisit { next: count + 1, body }
}

} // verus!
