use vstd::prelude::*;
use crate::bytes::{le_i16, le_u16, read_i16, read_u16};
use crate::level::bounding_box::BoundingBox;
use crate::level::sidedefs::SideDef;
use crate::number::{RealNumber, wrap_i32};
use crate::rendering::types::Point2D;

verus! {

/// Size of a line-def record.
pub const LINEDEF_SIZE: usize = 14;

/// The side number that marks a one-sided line.
pub const NO_SIDE: u16 = 0xffff;

#[derive(Copy, Clone, Debug, PartialEq, Eq, Structural)]
pub enum SlopeType {
    Horizontal,
    Vertical,
    Positive,
    Negative,
}

/// A line of the map between two vertices, with its sides.
pub struct LineDef {
    pub v1: Point2D,
    pub v2: Point2D,
    pub dx: RealNumber,
    pub dy: RealNumber,
    pub flags: i16,
    pub special: i16,
    pub tag: i16,
    pub front_side_index: usize,
    pub back_side_index: Option<usize>,
    pub bbox: BoundingBox,
    pub slope_type: SlopeType,
    pub valid_count: i32,
}

pub const FLAG_BLOCKING: i16 = 1;
pub const FLAG_BLOCK_MONSTERS: i16 = 2;
pub const FLAG_TWOSIDED: i16 = 4;
pub const FLAG_DONT_PEG_TOP: i16 = 8;
pub const FLAG_DONT_PEG_BOTTOM: i16 = 16;
pub const FLAG_SECRET: i16 = 32;
pub const FLAG_SOUND_BLOCK: i16 = 64;
pub const FLAG_DONT_DRAW_ON_AUTOMAP: i16 = 128;
pub const FLAG_MAPPED: i16 = 256;

/// The slope class of a direction.
pub open spec fn slope_of(dx: i32, dy: i32) -> SlopeType {
    if dx == 0 {
        SlopeType::Vertical
    } else if dy == 0 {
        SlopeType::Horizontal
    } else if crate::number::real_div_spec(dy, dx) > 0 {
        SlopeType::Positive
    } else {
        SlopeType::Negative
    }
}

impl LineDef {
    pub fn dont_peg_top_texture(&self) -> (r: bool)
        ensures
            r == (self.flags & FLAG_DONT_PEG_TOP > 0),
    {
        (self.flags & FLAG_DONT_PEG_TOP) > 0
    }

    pub fn dont_peg_bottom_texture(&self) -> (r: bool)
        ensures
            r == (self.flags & FLAG_DONT_PEG_BOTTOM > 0),
    {
        (self.flags & FLAG_DONT_PEG_BOTTOM) > 0
    }

    /// Whether either side of the line faces the sector.
    pub fn is_adjacent_to_sector_index(&self, sector_index: usize, sides: &Vec<SideDef>) -> (r: bool)
        requires
            self.front_side_index < sides@.len(),
            self.back_side_index matches Some(b) ==> b < sides@.len(),
        ensures
            r == (sides@[self.front_side_index as int].sector_index == sector_index || (
            self.back_side_index matches Some(b) && sides@[b as int].sector_index == sector_index)),
    {
        if sides[self.front_side_index].sector_index == sector_index {
            return true;
        }
        match self.back_side_index {
            Some(back_side_index) => sides[back_side_index].sector_index == sector_index,
            None => false,
        }
    }
}

/// Both vertex references of line-def record `i` are below `n`.
pub open spec fn linedef_vertices_in(data: Seq<u8>, i: int, n: int) -> bool {
    le_u16(data, 14 * i) < n && le_u16(data, 14 * i + 2) < n
}

/// Every vertex reference of a `LINEDEFS` lump is below `n`.
pub open spec fn linedef_vertices_ok(data: Seq<u8>, n: int) -> bool {
    forall|i: int| 0 <= i < data.len() / 14 ==> #[trigger] linedef_vertices_in(data, i, n)
}

/// Reads every whole line-def record; `None` when a record names a vertex that does not
/// exist.
pub fn load(data: &[u8], vertices: &Vec<Point2D>) -> (r: Option<Vec<LineDef>>)
    ensures
        r is Some <==> linedef_vertices_ok(data@, vertices@.len() as int),
        r matches Some(lines) ==> {
            &&& lines@.len() == data@.len() / 14
            &&& forall|i: int|
                0 <= i < lines@.len() ==> {
                    &&& (#[trigger] lines@[i]).v1 == vertices@[le_u16(data@, 14 * i)]
                    &&& lines@[i].v2 == vertices@[le_u16(data@, 14 * i + 2)]
                    &&& lines@[i].dx@ == wrap_i32(lines@[i].v2.x@ - lines@[i].v1.x@)
                    &&& lines@[i].dy@ == wrap_i32(lines@[i].v2.y@ - lines@[i].v1.y@)
                    &&& lines@[i].slope_type == slope_of(lines@[i].dx@, lines@[i].dy@)
                    &&& lines@[i].flags == le_i16(data@, 14 * i + 4)
                    &&& lines@[i].special == le_i16(data@, 14 * i + 6)
                    &&& lines@[i].tag == le_i16(data@, 14 * i + 8)
                    &&& lines@[i].bbox.wf()
                    &&& lines@[i].bbox.left_bits() == (if lines@[i].v1.x@ <= lines@[i].v2.x@ { lines@[i].v1.x@ } else { lines@[i].v2.x@ })
                    &&& lines@[i].bbox.right_bits() == (if lines@[i].v1.x@ >= lines@[i].v2.x@ { lines@[i].v1.x@ } else { lines@[i].v2.x@ })
                    &&& lines@[i].bbox.bottom_bits() == (if lines@[i].v1.y@ <= lines@[i].v2.y@ { lines@[i].v1.y@ } else { lines@[i].v2.y@ })
                    &&& lines@[i].bbox.top_bits() == (if lines@[i].v1.y@ >= lines@[i].v2.y@ { lines@[i].v1.y@ } else { lines@[i].v2.y@ })
                    &&& lines@[i].front_side_index == le_u16(data@, 14 * i + 10)
                    &&& lines@[i].back_side_index == (if le_u16(data@, 14 * i + 12) == 0xffff {
                        None
                    } else {
                        Some(le_u16(data@, 14 * i + 12) as usize)
                    })
                }
        },
{
    let len = data.len();
    let n = len / LINEDEF_SIZE;
    let mut lines: Vec<LineDef> = Vec::new();
    let mut i: usize = 0;
    while i < n
        invariant
            i <= n,
            len == data@.len(),
            n == data@.len() / 14,
            lines@.len() == i,
            forall|k: int|
                0 <= k < i ==> #[trigger] linedef_vertices_in(data@, k, vertices@.len() as int),
            forall|k: int|
                0 <= k < i ==> {
                    &&& (#[trigger] lines@[k]).v1 == vertices@[le_u16(data@, 14 * k)]
                    &&& lines@[k].v2 == vertices@[le_u16(data@, 14 * k + 2)]
                    &&& lines@[k].dx@ == wrap_i32(lines@[k].v2.x@ - lines@[k].v1.x@)
                    &&& lines@[k].dy@ == wrap_i32(lines@[k].v2.y@ - lines@[k].v1.y@)
                    &&& lines@[k].slope_type == slope_of(lines@[k].dx@, lines@[k].dy@)
                    &&& lines@[k].flags == le_i16(data@, 14 * k + 4)
                    &&& lines@[k].special == le_i16(data@, 14 * k + 6)
                    &&& lines@[k].tag == le_i16(data@, 14 * k + 8)
                    &&& lines@[k].bbox.wf()
                    &&& lines@[k].bbox.left_bits() == (if lines@[k].v1.x@ <= lines@[k].v2.x@ { lines@[k].v1.x@ } else { lines@[k].v2.x@ })
                    &&& lines@[k].bbox.right_bits() == (if lines@[k].v1.x@ >= lines@[k].v2.x@ { lines@[k].v1.x@ } else { lines@[k].v2.x@ })
                    &&& lines@[k].bbox.bottom_bits() == (if lines@[k].v1.y@ <= lines@[k].v2.y@ { lines@[k].v1.y@ } else { lines@[k].v2.y@ })
                    &&& lines@[k].bbox.top_bits() == (if lines@[k].v1.y@ >= lines@[k].v2.y@ { lines@[k].v1.y@ } else { lines@[k].v2.y@ })
                    &&& lines@[k].front_side_index == le_u16(data@, 14 * k + 10)
                    &&& lines@[k].back_side_index == (if le_u16(data@, 14 * k + 12) == 0xffff {
                        None
                    } else {
                        Some(le_u16(data@, 14 * k + 12) as usize)
                    })
                },
        decreases n - i,
    {
        let at = LINEDEF_SIZE * i;
        let i1 = read_u16(data, at) as usize;
        let i2 = read_u16(data, at + 2) as usize;
        if i1 >= vertices.len() || i2 >= vertices.len() {
            assert(!linedef_vertices_in(data@, i as int, vertices@.len() as int));
            return None;
        }
        assert(linedef_vertices_in(data@, i as int, vertices@.len() as int));
        let v1 = vertices[i1];
        let v2 = vertices[i2];
        let dx = v2.x.sub(v1.x);
        let dy = v2.y.sub(v1.y);
        let slope_type = if dx.is_zero() {
            SlopeType::Vertical
        } else if dy.is_zero() {
            SlopeType::Horizontal
        } else if dy.div(dx).gt(RealNumber::new_from_bits(0)) {
            SlopeType::Positive
        } else {
            SlopeType::Negative
        };
        let back = read_u16(data, at + 12);
        let back_side_index = if back == NO_SIDE {
            None
        } else {
            Some(back as usize)
        };
        lines.push(
            LineDef {
                v1,
                v2,
                dx,
                dy,
                flags: read_i16(data, at + 4),
                special: read_i16(data, at + 6),
                tag: read_i16(data, at + 8),
                front_side_index: read_u16(data, at + 10) as usize,
                back_side_index,
                bbox: BoundingBox::from_vertices(&v1, &v2),
                slope_type,
                valid_count: 0,
            },
        );
        i = i + 1;
    }
    Some(lines)
}

} // verus!
