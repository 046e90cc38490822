//! Fresh identifiers for stored records, behind a trusted wrapper.

use vstd::prelude::*;

verus! {

/// Relies on uuid::Uuid::now_v7 and uuid::Uuid::as_u128: a fresh
/// time-ordered identifier. The value depends on the clock and on
/// random state, so nothing is promised of it.
#[verifier::external_body]
pub(crate) fn fresh_id() -> u128 {
    uuid::Uuid::now_v7().as_u128()
}

} // verus!
