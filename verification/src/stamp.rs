//! What a new record is stamped with: an identifier and the time of writing.

use vstd::prelude::*;

verus! {

/// Calls `uuid::Uuid::new_v4` and writes the identifier out with its
/// `Display`, which is the hyphenated lower-case form of 36 characters. The
/// identifier is random, so nothing but its length is stated. `new_v4` panics
/// where the system hands out no random bytes.
#[verifier::external_body]
pub(crate) fn new_record_id() -> (id: String)
    ensures
        id@.len() == 36,
{
    uuid::Uuid::new_v4().to_string()
}

/// Calls `chrono::Utc::now` and writes the moment out with
/// `DateTime::to_rfc3339`. The text depends on the clock, so nothing is
/// stated of it. `now` panics where the clock stands before 1970.
#[verifier::external_body]
pub(crate) fn now_rfc3339() -> (now: String)
{
    chrono::Utc::now().to_rfc3339()
}

} // verus!
