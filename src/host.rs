//! Identity of the monitoring host and of each event.
use vstd::prelude::*;

verus! {

/// Relies on `uuid::Uuid::new_v4` and its hyphenated `Display`: a random
/// identifier written as 36 characters.
#[verifier::external_body]
pub(crate) fn new_event_id() -> (r: String)
    ensures
        r@.len() == 36,
{
    uuid::Uuid::new_v4().to_string()
}

/// Relies on `whoami::fallible::hostname`: the machine's name, where the
/// system gives one.
#[verifier::external_body]
pub(crate) fn host_name() -> (r: Option<String>) {
    whoami::fallible::hostname().ok()
}

/// Relies on `whoami::fallible::username`: the current user's name, where the
/// system gives one.
#[verifier::external_body]
pub(crate) fn user_name() -> (r: Option<String>) {
    whoami::fallible::username().ok()
}

} // verus!
