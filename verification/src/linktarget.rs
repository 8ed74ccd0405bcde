//! The link target ID list: a 16-bit length followed by a stored item ID
//! list occupying exactly that many bytes.

use vstd::prelude::*;

use crate::Error;
use crate::bytes::has_bytes;
use crate::bytes::le_u16;
use crate::bytes::read_u16;
use crate::idlist::IdList;
use crate::idlist::spec_items_data;
use crate::idlist::spec_parse_idlist;
use crate::itemid::ItemID;

verus! {

/// The target of the link, stored as a length-bounded item ID list.
#[derive(Clone, Debug, Default)]
pub struct LinkTargetIdList {
    /// The size, in bytes, of the IDList field.
    pub size: u16,
    /// The stored item ID list.
    pub id_list: IdList,
}

impl LinkTargetIdList {
    /// The decoded items.
    pub fn id_list(&self) -> (r: &Vec<ItemID>)
        ensures
            r == self.id_list.item_id_list,
    {
        self.id_list.item_id_list()
    }

    /// Decodes the 16-bit length and the item ID list it bounds. However
    /// early the terminator comes, the returned position sits exactly
    /// `2 + size` bytes past `pos`, so the declared extent is consumed in
    /// full.
    pub fn read(data: &[u8], pos: usize) -> (r: Result<(LinkTargetIdList, usize), Error>)
        ensures
            r matches Ok((l, end)) ==> {
                &&& has_bytes(data@, pos as int, 2)
                &&& l.size == le_u16(data@, pos as int)
                &&& has_bytes(data@, pos + 2, l.size as int)
                &&& spec_parse_idlist(data@, pos + 2, l.size as int) matches Ok(p)
                &&& spec_items_data(l.id_list.item_id_list@) == p.0
                &&& p.1 <= end
                &&& end == pos + 2 + l.size
                &&& l.id_list.wf()
            },
            r matches Err(e) ==> if !has_bytes(data@, pos as int, 2) {
                e == (Error::Io { offset: pos })
            } else if !has_bytes(data@, pos + 2, le_u16(data@, pos as int) as int) {
                e == Error::TruncatedIdList
            } else {
                spec_parse_idlist(data@, pos + 2, le_u16(data@, pos as int) as int) matches Err(e2)
                    && e == e2
            },
            r is Err <==> !has_bytes(data@, pos as int, 2) || !has_bytes(
                data@,
                pos + 2,
                le_u16(data@, pos as int) as int,
            ) || spec_parse_idlist(data@, pos + 2, le_u16(data@, pos as int) as int) is Err,
    {
        let len: usize = data.len();
        let size = match read_u16(data, pos) {
            Some(w) => w,
            None => {
                return Err(Error::Io { offset: pos });
            },
        };
        if !(size as usize <= len && pos + 2 <= len - size as usize) {
            return Err(Error::TruncatedIdList);
        }
        match IdList::read(data, pos + 2, size as u32) {
            Ok((id_list, _items_end)) => Ok(
                (LinkTargetIdList { size, id_list }, pos + 2 + size as usize),
            ),
            Err(e) => Err(e),
        }
    }
}

} // verus!
