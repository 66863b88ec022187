//! The gallery widget's own state.

use vstd::prelude::*;

verus! {

/// A gallery that fills the space it is given. It holds no state of its own
/// yet, so any two galleries are equal.
#[derive(Clone, Copy, Debug, PartialEq, Eq, Structural)]
pub struct Gallery {}

impl Gallery {
    /// Makes the one value a gallery can have.
    pub fn new() -> (gallery: Self)
        ensures
            gallery == (Gallery {}),
    {
        Self {}
    }
}

} // verus!
