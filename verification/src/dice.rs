//! Dice: the one place where chance enters the library.
use vstd::prelude::*;

verus! {

/// Rolls a die with faces `lo..=hi`, through `rand::random_range` on the
/// thread-local generator.
///
/// The contract claims only that the face lies in the range: which face
/// comes up rests on chance and is left unsaid. `rand` panics on an empty
/// range, hence `lo <= hi`.
#[verifier::external_body]
pub(crate) fn roll_die(lo: i32, hi: i32) -> (face: i32)
    requires
        lo <= hi,
    ensures
        lo <= face <= hi,
{
    rand::random_range(lo..=hi)
}

} // verus!
