use vstd::prelude::*;

verus! {

/// Relies on `chrono::Local::now`: the current time as Unix seconds.
/// Nothing is promised of the value; callers state what holds of every
/// outcome.
#[verifier::external_body]
pub(crate) fn now_timestamp() -> i64 {
    chrono::Local::now().timestamp()
}

} // verus!
