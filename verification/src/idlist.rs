//! The stored item ID list: a run of variable-length items closed by a
//! zero-sized terminator, decoded within a byte budget.

use vstd::prelude::*;

use crate::Error;
use crate::bytes::has_bytes;
use crate::bytes::le_u16;
use crate::bytes::read_bytes;
use crate::bytes::read_u16;
use crate::itemid::ItemID;

verus! {

/// What decoding an item ID list at `pos` under `budget` bytes yields: the
/// data of each non-terminal item in order, and the position just past the
/// terminator; or the error the decode stops with. The budget must keep at
/// least two bytes in hand for the terminator, every non-terminal item
/// must declare a size above 2 and within the budget, and its data must be
/// present in the input.
pub open spec fn spec_parse_idlist(d: Seq<u8>, pos: int, budget: int) -> Result<
    (Seq<Seq<u8>>, int),
    Error,
>
    decreases budget,
{
    if budget < 2 {
        Err(Error::TruncatedIdList)
    } else if !has_bytes(d, pos, 2) {
        Err(Error::Io { offset: pos as usize })
    } else {
        let size = le_u16(d, pos) as int;
        if size == 0 {
            Ok((Seq::empty(), pos + 2))
        } else if size <= 2 {
            Err(Error::TruncatedIdList)
        } else if size > budget {
            Err(Error::TruncatedIdList)
        } else if !has_bytes(d, pos + 2, size - 2) {
            Err(Error::Io { offset: pos as usize })
        } else {
            match spec_parse_idlist(d, pos + size, budget - size) {
                Ok((rest, end)) => Ok((seq![d.subrange(pos + 2, pos + size)] + rest, end)),
                Err(e) => Err(e),
            }
        }
    }
}

/// A failed list decode reports either an exhausted budget or input that
/// ended too early.
pub proof fn lemma_idlist_err_kinds(d: Seq<u8>, pos: int, budget: int)
    ensures
        spec_parse_idlist(d, pos, budget) matches Err(e) ==> (e matches Error::TruncatedIdList || e
            matches Error::Io { .. }),
    decreases budget,
{
    if budget >= 2 && has_bytes(d, pos, 2) {
        let size = le_u16(d, pos) as int;
        if size > 2 && size <= budget && has_bytes(d, pos + 2, size - 2) {
            lemma_idlist_err_kinds(d, pos + size, budget - size);
        }
    }
}

/// An ordered, possibly empty sequence of items, as stored.
#[derive(Clone, Debug, Default)]
pub struct IdList {
    /// The non-terminal items, in order.
    pub item_id_list: Vec<ItemID>,
}

/// The data bytes of each item of `v`, in order.
pub open spec fn spec_items_data(v: Seq<ItemID>) -> Seq<Seq<u8>> {
    v.map_values(|it: ItemID| it.data@)
}

impl IdList {
    /// Every stored item is well formed.
    pub open spec fn wf(&self) -> bool {
        forall|i: int| 0 <= i < self.item_id_list@.len() ==> self.item_id_list@[i].wf()
    }

    /// The stored items.
    pub fn item_id_list(&self) -> (r: &Vec<ItemID>)
        ensures
            r == self.item_id_list,
    {
        &self.item_id_list
    }

    /// Decodes an item ID list at `pos` that may spend at most `budget`
    /// bytes, terminator included. The returned position sits just past
    /// the terminator, which may come before the budget is spent.
    pub fn read(data: &[u8], pos: usize, budget: u32) -> (r: Result<(IdList, usize), Error>)
        ensures
            r matches Ok((l, end)) ==> {
                &&& spec_parse_idlist(data@, pos as int, budget as int) matches Ok(p)
                &&& spec_items_data(l.item_id_list@) == p.0
                &&& end == p.1
                &&& pos + 2 <= end <= pos + budget
                &&& l.wf()
            },
            r matches Err(e) ==> spec_parse_idlist(data@, pos as int, budget as int) matches Err(
                e2,
            ) && e == e2,
            r is Err <==> spec_parse_idlist(data@, pos as int, budget as int) is Err,
    {
        let len: usize = data.len();
        let mut items: Vec<ItemID> = Vec::new();
        let mut cur: usize = pos;
        let mut left: u32 = budget;
        loop
            invariant
                pos <= cur,
                cur + left <= pos + budget,
                len == data@.len(),
                spec_parse_idlist(data@, pos as int, budget as int) == (match spec_parse_idlist(
                    data@,
                    cur as int,
                    left as int,
                ) {
                    Ok(p) => Ok::<(Seq<Seq<u8>>, int), Error>(
                        (spec_items_data(items@) + p.0, p.1),
                    ),
                    Err(e) => Err::<(Seq<Seq<u8>>, int), Error>(e),
                }),
                forall|i: int| 0 <= i < items@.len() ==> items@[i].wf(),
            decreases left,
        {
            if left < 2 {
                return Err(Error::TruncatedIdList);
            }
            let size = match read_u16(data, cur) {
                Some(w) => w,
                None => {
                    return Err(Error::Io { offset: cur });
                },
            };
            if size == 0 {
                proof {
                    assert(spec_items_data(items@) + Seq::<Seq<u8>>::empty() =~= spec_items_data(
                        items@,
                    ));
                }
                return Ok((IdList { item_id_list: items }, cur + 2));
            }
            if size <= 2 {
                return Err(Error::TruncatedIdList);
            }
            if size as u32 > left {
                return Err(Error::TruncatedIdList);
            }
            let data_len = (size - 2) as usize;
            let bytes = match read_bytes(data, cur + 2, data_len) {
                Some(v) => v,
                None => {
                    return Err(Error::Io { offset: cur });
                },
            };
            let item = ItemID { size, data: bytes };
            proof {
                let rest = spec_parse_idlist(data@, cur + size as int, left - size as int);
                assert(spec_items_data(items@.push(item)) =~= spec_items_data(items@) + seq![
                    item.data@,
                ]);
                if rest is Ok {
                    assert(spec_items_data(items@.push(item)) + rest->Ok_0.0 =~= spec_items_data(
                        items@,
                    ) + (seq![data@.subrange(cur + 2, cur as int + size as int)] + rest->Ok_0.0));
                }
            }
            items.push(item);
            cur = cur + size as usize;
            left = left - size as u32;
        }
    }
}

} // verus!
