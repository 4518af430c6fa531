//! The one source of chance.

use vstd::prelude::*;

verus! {

/// `rand::random::<bool>()`: a fair coin from the thread's generator.
/// Nothing is claimed of the outcome: two tosses may differ.
#[verifier::external_body]
pub(crate) fn coin() -> bool {
    rand::random()
}

} // verus!
