//! Thumbnails for `.fzp` documents: finding the embedded image in the
//! container, a clamped window over the stream that holds it, and the checks
//! and sizes of the resize step.
use vstd::prelude::*;

pub mod scan;
pub mod take;
pub mod thumb;

verus! {

/// The smaller of two integers.
pub open spec fn min_int(a: int, b: int) -> int {
    if a <= b {
        a
    } else {
        b
    }
}

} // verus!
