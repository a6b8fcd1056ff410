use vstd::prelude::*;
use crate::bytes::le_i16;
use crate::number::RealNumber;
use crate::rendering::patch::Patch;
use crate::wad::{By, LumpNumber, LumpStore};

verus! {

/// `S_START`
pub open spec fn sprite_start_name() -> Seq<u8> {
    seq![83u8, 95u8, 83u8, 84u8, 65u8, 82u8, 84u8]
}

/// `S_END`
pub open spec fn sprite_end_name() -> Seq<u8> {
    seq![83u8, 95u8, 69u8, 78u8, 68u8]
}

/// `S_START` and `S_END` are present, in order, and every lump between them holds a patch
/// header.
pub open spec fn sprites_present(lumps: &LumpStore) -> bool {
    exists|a: int, b: int| {
        &&& lumps.finds(sprite_start_name(), a)
        &&& lumps.finds(sprite_end_name(), b)
        &&& a < b
        &&& forall|k: int| a < k < b ==> #[trigger] lumps.lump_data(k).len() >= 8
    }
}

/// The sprite tables hold the patch header of each lump after lump `a`, in order.
pub open spec fn sprite_headers(lumps: &LumpStore, s: &SpriteData, a: int) -> bool {
    forall|k: int|
        0 <= k < s.widths@.len() ==> (#[trigger] s.widths@[k])@ == le_i16(lumps.lump_data(a + 1 + k), 0) * 65536
            && s.offsets@[k]@ == le_i16(lumps.lump_data(a + 1 + k), 4) * 65536
            && s.top_offsets@[k]@ == le_i16(lumps.lump_data(a + 1 + k), 6) * 65536
}

/// Width and offsets of every sprite lump, as reals.
pub struct SpriteData {
    pub widths: Vec<RealNumber>,
    pub offsets: Vec<RealNumber>,
    pub top_offsets: Vec<RealNumber>,
}

impl SpriteData {
    /// Reads the patch header of every lump between `S_START` and `S_END`; `None` when a
    /// marker is absent or out of order, or a lump is shorter than a patch header.
    pub fn init(lumps: &LumpStore) -> (r: Option<SpriteData>)
        requires
            lumps.wf(),
        ensures
            r is Some <==> sprites_present(lumps),
            r matches Some(s) ==> s.widths@.len() == s.offsets@.len() && s.offsets@.len() == s.top_offsets@.len(),
            r matches Some(s) ==> forall|a: int, b: int|
                #[trigger] lumps.finds(sprite_start_name(), a) && #[trigger] lumps.finds(sprite_end_name(), b)
                    ==> s.widths@.len() == b - a - 1 && sprite_headers(lumps, &s, a),
    {
        let start_name: Vec<u8> = vec![83u8, 95u8, 83u8, 84u8, 65u8, 82u8, 84u8];
        let end_name: Vec<u8> = vec![83u8, 95u8, 69u8, 78u8, 68u8];
        assert(start_name@ == sprite_start_name());
        assert(end_name@ == sprite_end_name());
        let first = match lumps.find_lump(start_name.as_slice()) {
            Some(n) => n.index(),
            None => return None,
        };
        let last = match lumps.find_lump(end_name.as_slice()) {
            Some(n) => n.index(),
            None => return None,
        };
        proof {
            crate::graphics::flats::lemma_finds_unique(lumps, start_name@, first as int);
            crate::graphics::flats::lemma_finds_unique(lumps, end_name@, last as int);
        }
        if last <= first {
            return None;
        }
        let count = last - first - 1;
        let mut widths: Vec<RealNumber> = Vec::new();
        let mut offsets: Vec<RealNumber> = Vec::new();
        let mut top_offsets: Vec<RealNumber> = Vec::new();
        let mut i: usize = 0;
        while i < count
            invariant
                lumps.wf(),
                i <= count,
                count == last - first - 1,
                last < lumps.lump_count(),
                widths@.len() == i,
                offsets@.len() == i,
                top_offsets@.len() == i,
                lumps.finds(sprite_start_name(), first as int),
                lumps.finds(sprite_end_name(), last as int),
                forall|a: int, b: int| lumps.finds(sprite_start_name(), a) && lumps.finds(sprite_end_name(), b) ==> a == first && b == last,
                forall|k: int| first < k < first + 1 + i ==> #[trigger] lumps.lump_data(k).len() >= 8,
                forall|k: int|
                    0 <= k < i ==> (#[trigger] widths@[k])@ == le_i16(lumps.lump_data(first + 1 + k), 0) * 65536
                        && offsets@[k]@ == le_i16(lumps.lump_data(first + 1 + k), 4) * 65536
                        && top_offsets@[k]@ == le_i16(lumps.lump_data(first + 1 + k), 6) * 65536,
            decreases count - i,
        {
            let lump = lumps.get_lump(By::Number(LumpNumber(first + 1 + i)));
            if lump.len() < 8 {
                assert(lumps.lump_data(first + 1 + i).len() < 8);
                return None;
            }
            let patch = Patch::new(vstd::slice::slice_to_vec(lump));
            widths.push(RealNumber::new(patch.width()));
            offsets.push(RealNumber::new(patch.left_offset()));
            top_offsets.push(RealNumber::new(patch.top_offset()));
            i = i + 1;
        }
        let r = SpriteData { widths, offsets, top_offsets };
        assert(sprite_headers(lumps, &r, first as int));
        assert forall|a: int, b: int|
            #[trigger] lumps.finds(sprite_start_name(), a) && #[trigger] lumps.finds(sprite_end_name(), b) implies r.widths@.len() == b - a - 1
                && sprite_headers(lumps, &r, a) by {
            assert(a == first && b == last);
        }
        assert(lumps.finds(sprite_start_name(), first as int) && lumps.finds(sprite_end_name(), last as int)
            && first < last && forall|k: int| first < k < last ==> #[trigger] lumps.lump_data(k).len() >= 8);
        Some(r)
    }
}

} // verus!
