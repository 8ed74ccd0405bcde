//! A single entry of a stored item ID list.

use vstd::prelude::*;

use crate::bytes::push_u16;
use crate::bytes::u16_le_bytes;

verus! {

/// One shell item: a 16-bit size (inclusive of the size field itself) and
/// `size - 2` bytes of opaque shell data.
#[derive(Clone, Debug, Default)]
pub struct ItemID {
    /// The stored size; zero only for a terminator, otherwise above 2.
    pub size: u16,
    /// The shell data source-defined bytes.
    pub data: Vec<u8>,
}

impl ItemID {
    /// A stored, non-terminal item is well formed when its size field
    /// counts its data plus the size word itself.
    pub open spec fn wf(&self) -> bool {
        self.size > 2 && self.data@.len() == self.size - 2
    }

    /// The stored size, including the size field itself.
    pub fn size(&self) -> (r: &u16)
        ensures
            r == self.size,
    {
        &self.size
    }

    /// The opaque item bytes.
    pub fn data(&self) -> (r: &Vec<u8>)
        ensures
            r == self.data,
    {
        &self.data
    }

    /// The wire form: the size word followed by the data bytes.
    pub fn to_bytes(&self) -> (r: Vec<u8>)
        requires
            self.wf(),
        ensures
            r@ == u16_le_bytes(self.size) + self.data@,
    {
        let mut v: Vec<u8> = Vec::new();
        push_u16(&mut v, self.size);
        let mut i: usize = 0;
        let ghost mid = v@;
        while i < self.data.len()
            invariant
                i <= self.data@.len(),
                v@ == mid + self.data@.subrange(0, i as int),
            decreases self.data@.len() - i,
        {
            v.push(self.data[i]);
            i = i + 1;
            proof {
                assert(v@ =~= mid + self.data@.subrange(0, i as int));
            }
        }
        proof {
            assert(v@ =~= u16_le_bytes(self.size) + self.data@);
        }
        v
    }
}

} // verus!
