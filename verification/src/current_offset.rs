//! A recorded stream position, kept by structures whose inner offsets are
//! relative to their own start.

use vstd::prelude::*;

verus! {

/// The position, from the start of the input, at which a structure began.
#[derive(Clone, Copy, Debug, PartialEq, Eq, Structural)]
pub struct CurrentOffset {
    offset: u32,
}

impl View for CurrentOffset {
    type V = u32;

    closed spec fn view(&self) -> u32 {
        self.offset
    }
}

impl CurrentOffset {
    /// Records a position.
    pub fn new(offset: u32) -> (r: Self)
        ensures
            r@ == offset,
    {
        CurrentOffset { offset }
    }

    /// The recorded position.
    pub fn value(&self) -> (r: u32)
        ensures
            r == self@,
    {
        self.offset
    }
}

} // verus!
