use vstd::prelude::*;

verus! {

/// Relies on `chrono::Utc::now`: the current wall-clock time as Unix
/// seconds. Nothing can be promised of a clock reading; every operation of
/// the core takes the time as an argument and is verified for all values.
/// `Utc::now` itself panics on a host clock set before the Unix epoch — an
/// environmental failure no argument can exclude.
#[verifier::external_body]
pub fn now_ts() -> i64 {
    chrono::Utc::now().timestamp()
}

} // verus!
