//! Fresh identities for receipts, snapshots, activity events and Commits.

use vstd::prelude::*;

verus! {

/// Calls `uuid::Uuid::now_v7` and its `to_string`: a fresh time-ordered UUID
/// in the 36-character hyphenated form. Which UUID comes back rests on the
/// clock and on randomness, so nothing more is stated of it.
#[verifier::external_body]
pub(crate) fn new_object_id() -> (id: String)
    ensures
        id@.len() == 36,
{
    uuid::Uuid::now_v7().to_string()
}

} // verus!
