use vstd::prelude::*;

verus! {

/// Relies on chrono::Utc::now: the current time in whole seconds since the Unix
/// epoch. Nothing is known of the value.
#[verifier::external_body]
pub(crate) fn now_epoch_seconds() -> u64 {
    chrono::Utc::now().timestamp() as u64
}

} // verus!
