//! Monitored targets: a named endpoint with a URL and a per-probe timeout.

use vstd::prelude::*;

verus! {

/// One monitored endpoint. Identity is the name; the timeout bounds a single
/// probe of the URL, in seconds.
pub struct Domain {
    pub name: String,
    pub url: String,
    pub timeout_seconds: u64,
}

/// The probe timeout, in seconds, for a target whose configuration names none.
pub fn default_timeout() -> (t: u64)
    ensures
        t == 10u64,
{
    10
}

} // verus!
