//! Fresh identifiers and the current time, from the uuid and chrono crates.

use vstd::prelude::*;

use crate::model::Timestamp;

verus! {

/// Relies on uuid::Uuid::new_v4 and its `Display`: a random version-4 UUID in
/// hyphenated form, which is 36 characters long.
#[verifier::external_body]
pub(crate) fn new_id() -> (r: String)
    ensures
        r@.len() == 36,
{
    uuid::Uuid::new_v4().to_string()
}

/// Relies on chrono::Utc::now and DateTime::timestamp_millis: the current time in
/// milliseconds since the Unix epoch.
#[verifier::external_body]
pub(crate) fn now() -> (r: Timestamp) {
    chrono::Utc::now().timestamp_millis()
}

} // verus!
