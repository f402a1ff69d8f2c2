//! Fresh-identifier generation, bridged to the simulation library.

use vstd::prelude::*;

verus! {

/// Relies on `chsl::math::unique_id::unique_id`: the decimal form of a
/// process-wide counter.  Its value depends on process state, so nothing is
/// assumed of it beyond being a non-empty string (an integer's decimal form
/// always has at least one character); every caller copes with an arbitrary
/// result.
#[verifier::external_body]
pub(crate) fn unique_id() -> (r: String)
    ensures
        r@.len() > 0,
{
    chsl::math::unique_id::unique_id()
}

} // verus!
