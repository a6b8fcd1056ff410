use vstd::prelude::*;
use crate::bytes::{le_u16, read_u16};
use crate::level::segs::Seg;

verus! {

/// Size of a sub-sector record.
pub const SUBSECTOR_SIZE: usize = 4;

/// A leaf of the BSP: a run of segs, and the sector its first seg faces.
#[derive(Copy, Clone, Debug)]
pub struct SubSector {
    pub num_segs: usize,
    pub first_seg_index: usize,
    pub sector_index: usize,
}

/// Sub-sector record `k` names a non-empty run of segs that lies in the seg table.
pub open spec fn subsector_record_ok(data: Seq<u8>, k: int, n_segs: int) -> bool {
    le_u16(data, 4 * k) > 0 && le_u16(data, 4 * k + 2) + le_u16(data, 4 * k) <= n_segs
}

/// Reads every whole sub-sector record; `None` when a record's segs are empty or run past
/// the seg table.
pub fn load(data: &[u8], segs: &Vec<Seg>) -> (r: Option<Vec<SubSector>>)
    ensures
        r is Some <==> forall|k: int| 0 <= k < data@.len() / 4 ==> #[trigger] subsector_record_ok(data@, k, segs@.len() as int),
        r matches Some(subs) ==> {
            &&& subs@.len() == data@.len() / 4
            &&& forall|i: int|
                0 <= i < subs@.len() ==> {
                    &&& (#[trigger] subs@[i]).num_segs == le_u16(data@, 4 * i)
                    &&& subs@[i].first_seg_index == le_u16(data@, 4 * i + 2)
                    &&& 0 < subs@[i].num_segs
                    &&& subs@[i].first_seg_index + subs@[i].num_segs <= segs@.len()
                    &&& subs@[i].sector_index == segs@[subs@[i].first_seg_index as int].front_sector_index
                }
        },
{
    let len = data.len();
    let n = len / SUBSECTOR_SIZE;
    let mut subs: Vec<SubSector> = Vec::new();
    let mut i: usize = 0;
    while i < n
        invariant
            i <= n,
            len == data@.len(),
            n == data@.len() / 4,
            subs@.len() == i,
            forall|k: int| 0 <= k < i ==> #[trigger] subsector_record_ok(data@, k, segs@.len() as int),
            forall|k: int|
                0 <= k < i ==> {
                    &&& (#[trigger] subs@[k]).num_segs == le_u16(data@, 4 * k)
                    &&& subs@[k].first_seg_index == le_u16(data@, 4 * k + 2)
                    &&& 0 < subs@[k].num_segs
                    &&& subs@[k].first_seg_index + subs@[k].num_segs <= segs@.len()
                    &&& subs@[k].sector_index == segs@[subs@[k].first_seg_index as int].front_sector_index
                },
        decreases n - i,
    {
        let num_segs = read_u16(data, SUBSECTOR_SIZE * i) as usize;
        let first_seg_index = read_u16(data, SUBSECTOR_SIZE * i + 2) as usize;
        if num_segs == 0 || first_seg_index >= segs.len() || num_segs > segs.len() - first_seg_index {
            assert(!subsector_record_ok(data@, i as int, segs@.len() as int));
            return None;
        }
        assert(subsector_record_ok(data@, i as int, segs@.len() as int));
        subs.push(
            SubSector {
                num_segs,
                first_seg_index,
                sector_index: segs[first_seg_index].front_sector_index,
            },
        );
        i = i + 1;
    }
    Some(subs)
}

} // verus!
