use vstd::prelude::*;
use crate::bytes::{le_i16, le_u16, read_i16, read_u16};
use crate::level::linedefs::{LineDef, FLAG_TWOSIDED};
use crate::level::sidedefs::SideDef;
use crate::number::RealNumber;
use crate::rendering::types::Angle;

verus! {

/// Size of a seg record.
pub const SEG_SIZE: usize = 12;

/// A piece of a line-def that lies in one sub-sector.
#[derive(Copy, Clone, Debug)]
pub struct Seg {
    pub vertex1_index: usize,
    pub vertex2_index: usize,
    pub offset: RealNumber,
    pub angle: Angle,
    pub sidedef_index: usize,
    pub linedef_index: usize,
    pub front_sector_index: usize,
    pub back_sector_index: Option<usize>,
}

/// The references of a seg lie in the level's tables.
pub open spec fn seg_refs_ok(s: Seg, n_vertices: int, n_lines: int, n_sides: int, n_sectors: int) -> bool {
    &&& s.vertex1_index < n_vertices
    &&& s.vertex2_index < n_vertices
    &&& s.linedef_index < n_lines
    &&& s.sidedef_index < n_sides
    &&& s.front_sector_index < n_sectors
    &&& s.back_sector_index matches Some(b) ==> b < n_sectors
}

/// Seg record `k` resolves: its vertices and line exist, its side number is 0 or 1 and
/// names an existing side of the line that faces an existing sector, and on a two-sided
/// line the other side, when there is one, does too.
pub open spec fn seg_record_ok(data: Seq<u8>, k: int, n_vertices: int, lines: Seq<LineDef>, sides: Seq<SideDef>, n_sectors: int) -> bool {
    let at = 12 * k;
    let l = le_u16(data, at + 6);
    let side = le_i16(data, at + 8);
    &&& le_u16(data, at) < n_vertices
    &&& le_u16(data, at + 2) < n_vertices
    &&& l < lines.len()
    &&& (side == 0 || side == 1)
    &&& {
        let line = lines[l];
        let this_side = if side == 0 { Some(line.front_side_index) } else { line.back_side_index };
        let other_side = if side == 0 { line.back_side_index } else { Some(line.front_side_index) };
        &&& this_side matches Some(t) && t < sides.len() && sides[t as int].sector_index < n_sectors
        &&& (line.flags & FLAG_TWOSIDED) != 0 ==> (other_side matches Some(o) ==> o < sides.len()
            && sides[o as int].sector_index < n_sectors)
    }
}

/// Reads every whole seg record, resolving its side and sectors through its line; `None`
/// when a reference does not resolve.
pub fn load(
    data: &[u8],
    n_vertices: usize,
    lines: &Vec<LineDef>,
    sides: &Vec<SideDef>,
    n_sectors: usize,
) -> (r: Option<Vec<Seg>>)
    ensures
        r is Some <==> forall|k: int| 0 <= k < data@.len() / 12 ==> #[trigger] seg_record_ok(data@, k, n_vertices as int, lines@, sides@, n_sectors as int),
        r matches Some(segs) ==> {
            &&& segs@.len() == data@.len() / 12
            &&& forall|i: int|
                0 <= i < segs@.len() ==> {
                    &&& seg_refs_ok(
                        #[trigger] segs@[i],
                        n_vertices as int,
                        lines@.len() as int,
                        sides@.len() as int,
                        n_sectors as int,
                    )
                    &&& segs@[i].vertex1_index == le_u16(data@, 12 * i)
                    &&& segs@[i].vertex2_index == le_u16(data@, 12 * i + 2)
                    &&& segs@[i].angle@ == le_u16(data@, 12 * i + 4) * 65536
                    &&& segs@[i].linedef_index == le_u16(data@, 12 * i + 6)
                    &&& segs@[i].offset@ == le_i16(data@, 12 * i + 10) * 65536
                    &&& segs@[i].front_sector_index == sides@[segs@[i].sidedef_index as int].sector_index
                }
        },
{
    let len = data.len();
    let n = len / SEG_SIZE;
    let mut segs: Vec<Seg> = Vec::new();
    let mut i: usize = 0;
    while i < n
        invariant
            i <= n,
            len == data@.len(),
            n == data@.len() / 12,
            segs@.len() == i,
            forall|k: int| 0 <= k < i ==> #[trigger] seg_record_ok(data@, k, n_vertices as int, lines@, sides@, n_sectors as int),
            forall|k: int|
                0 <= k < i ==> {
                    &&& seg_refs_ok(
                        #[trigger] segs@[k],
                        n_vertices as int,
                        lines@.len() as int,
                        sides@.len() as int,
                        n_sectors as int,
                    )
                    &&& segs@[k].vertex1_index == le_u16(data@, 12 * k)
                    &&& segs@[k].vertex2_index == le_u16(data@, 12 * k + 2)
                    &&& segs@[k].angle@ == le_u16(data@, 12 * k + 4) * 65536
                    &&& segs@[k].linedef_index == le_u16(data@, 12 * k + 6)
                    &&& segs@[k].offset@ == le_i16(data@, 12 * k + 10) * 65536
                    &&& segs@[k].front_sector_index == sides@[segs@[k].sidedef_index as int].sector_index
                },
        decreases n - i,
    {
        let at = SEG_SIZE * i;
        let v1 = read_u16(data, at) as usize;
        let v2 = read_u16(data, at + 2) as usize;
        let raw_angle = read_u16(data, at + 4) as u32;
        let linedef_index = read_u16(data, at + 6) as usize;
        let side = read_i16(data, at + 8);
        let offset = read_i16(data, at + 10);
        if v1 >= n_vertices || v2 >= n_vertices || linedef_index >= lines.len() {
            assert(!seg_record_ok(data@, i as int, n_vertices as int, lines@, sides@, n_sectors as int));
            return None;
        }
        let line = &lines[linedef_index];
        let (this_side, other_side) = if side == 0 {
            (Some(line.front_side_index), line.back_side_index)
        } else if side == 1 {
            (line.back_side_index, Some(line.front_side_index))
        } else {
            assert(!seg_record_ok(data@, i as int, n_vertices as int, lines@, sides@, n_sectors as int));
            return None;
        };
        let sidedef_index = match this_side {
            Some(s) => s,
            None => {
                assert(!seg_record_ok(data@, i as int, n_vertices as int, lines@, sides@, n_sectors as int));
                return None;
            },
        };
        if sidedef_index >= sides.len() || sides[sidedef_index].sector_index >= n_sectors {
            assert(!seg_record_ok(data@, i as int, n_vertices as int, lines@, sides@, n_sectors as int));
            return None;
        }
        let back_sector_index = if (line.flags & FLAG_TWOSIDED) != 0 {
            match other_side {
                Some(o) => {
                    if o >= sides.len() || sides[o].sector_index >= n_sectors {
                        assert(!seg_record_ok(data@, i as int, n_vertices as int, lines@, sides@, n_sectors as int));
                        return None;
                    }
                    Some(sides[o].sector_index)
                },
                None => None,
            }
        } else {
            None
        };
        assert(seg_record_ok(data@, i as int, n_vertices as int, lines@, sides@, n_sectors as int));
        segs.push(
            Seg {
                vertex1_index: v1,
                vertex2_index: v2,
                offset: RealNumber::new(offset as i32),
                angle: Angle::new(raw_angle * 65536),
                sidedef_index,
                linedef_index,
                front_sector_index: sides[sidedef_index].sector_index,
                back_sector_index,
            },
        );
        i = i + 1;
    }
    Some(segs)
}

} // verus!
