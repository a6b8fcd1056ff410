use vstd::prelude::*;
use crate::bytes::{le_i16, le_u16, read_i16, read_u16};
use crate::level::bounding_box::BoundingBox;
use crate::number::RealNumber;

verus! {

/// Size of a node record: partition line, two boxes, two children.
pub const NODE_SIZE: usize = 28;

/// The high bit of a child reference marks a sub-sector.
pub const NF_SUBSECTOR: usize = 0x8000;

/// A BSP node: a partition line, the box of each child, and the two children.
pub struct Node {
    pub x: RealNumber,
    pub y: RealNumber,
    pub dx: RealNumber,
    pub dy: RealNumber,
    pub bbox: [BoundingBox; 2],
    pub children: [usize; 2],
}

impl Node {
    pub fn x(&self) -> (r: RealNumber)
        ensures
            r == self.x,
    {
        self.x
    }

    pub fn y(&self) -> (r: RealNumber)
        ensures
            r == self.y,
    {
        self.y
    }

    pub fn dx(&self) -> (r: RealNumber)
        ensures
            r == self.dx,
    {
        self.dx
    }

    pub fn dy(&self) -> (r: RealNumber)
        ensures
            r == self.dy,
    {
        self.dy
    }

    pub fn children(&self) -> (r: &[usize; 2])
        ensures
            r == &self.children,
    {
        &self.children
    }
}

/// A box holds the four coordinates at `at`, ordered top, bottom, left, right, as reals.
pub open spec fn box_at(b: BoundingBox, data: Seq<u8>, at: int) -> bool {
    &&& b.top_bits() == le_i16(data, at) * 65536
    &&& b.bottom_bits() == le_i16(data, at + 2) * 65536
    &&& b.left_bits() == le_i16(data, at + 4) * 65536
    &&& b.right_bits() == le_i16(data, at + 6) * 65536
}

/// The four coordinates of box `b` of the node record at `at`, ordered top, bottom,
/// left, right, as reals.
fn read_box(data: &[u8], at: usize) -> (r: BoundingBox)
    requires
        at + 8 <= data@.len(),
    ensures
        r.top_bits() == le_i16(data@, at as int) * 65536,
        r.bottom_bits() == le_i16(data@, at + 2) * 65536,
        r.left_bits() == le_i16(data@, at + 4) * 65536,
        r.right_bits() == le_i16(data@, at + 6) * 65536,
{
    let len = data.len();
    assert(at + 8 <= len);
    BoundingBox::new(
        RealNumber::new(read_i16(data, at + 4) as i32),
        RealNumber::new(read_i16(data, at + 6) as i32),
        RealNumber::new(read_i16(data, at) as i32),
        RealNumber::new(read_i16(data, at + 2) as i32),
    )
}

/// Reads every whole node record of a `NODES` lump.
pub fn load(data: &[u8]) -> (r: Vec<Node>)
    ensures
        r@.len() == data@.len() / 28,
        forall|i: int|
            0 <= i < r@.len() ==> {
                &&& (#[trigger] r@[i]).x@ == le_i16(data@, 28 * i) * 65536
                &&& r@[i].y@ == le_i16(data@, 28 * i + 2) * 65536
                &&& r@[i].dx@ == le_i16(data@, 28 * i + 4) * 65536
                &&& r@[i].dy@ == le_i16(data@, 28 * i + 6) * 65536
                &&& r@[i].children[0] == le_u16(data@, 28 * i + 24)
                &&& r@[i].children[1] == le_u16(data@, 28 * i + 26)
                &&& box_at(r@[i].bbox[0], data@, 28 * i + 8)
                &&& box_at(r@[i].bbox[1], data@, 28 * i + 16)
            },
{
    let len = data.len();
    let n = len / NODE_SIZE;
    let mut r: Vec<Node> = Vec::new();
    let mut i: usize = 0;
    while i < n
        invariant
            i <= n,
            len == data@.len(),
            n == data@.len() / 28,
            r@.len() == i,
            forall|k: int|
                0 <= k < i ==> {
                    &&& (#[trigger] r@[k]).x@ == le_i16(data@, 28 * k) * 65536
                    &&& r@[k].y@ == le_i16(data@, 28 * k + 2) * 65536
                    &&& r@[k].dx@ == le_i16(data@, 28 * k + 4) * 65536
                    &&& r@[k].dy@ == le_i16(data@, 28 * k + 6) * 65536
                    &&& r@[k].children[0] == le_u16(data@, 28 * k + 24)
                    &&& r@[k].children[1] == le_u16(data@, 28 * k + 26)
                &&& box_at(r@[k].bbox[0], data@, 28 * k + 8)
                &&& box_at(r@[k].bbox[1], data@, 28 * k + 16)
                },
        decreases n - i,
    {
        let at = NODE_SIZE * i;
        let node = Node {
            x: RealNumber::new(read_i16(data, at) as i32),
            y: RealNumber::new(read_i16(data, at + 2) as i32),
            dx: RealNumber::new(read_i16(data, at + 4) as i32),
            dy: RealNumber::new(read_i16(data, at + 6) as i32),
            bbox: [read_box(data, at + 8), read_box(data, at + 16)],
            children: [read_u16(data, at + 24) as usize, read_u16(data, at + 26) as usize],
        };
        r.push(node);
        i = i + 1;
    }
    r
}

} // verus!
