use vstd::prelude::*;
use crate::number::RealNumber;
use crate::rendering::types::Point2D;

verus! {

pub const TOP_INDEX: usize = 0;
pub const BOTTOM_INDEX: usize = 1;
pub const LEFT_INDEX: usize = 2;
pub const RIGHT_INDEX: usize = 3;

/// An axis-aligned box, its coordinates indexed top, bottom, left, right.
#[derive(Copy, Clone, Debug)]
pub struct BoundingBox {
    pub coordinates: [RealNumber; 4],
}

impl BoundingBox {
    pub open spec fn top_bits(&self) -> i32 {
        self.coordinates[0]@
    }

    pub open spec fn bottom_bits(&self) -> i32 {
        self.coordinates[1]@
    }

    pub open spec fn left_bits(&self) -> i32 {
        self.coordinates[2]@
    }

    pub open spec fn right_bits(&self) -> i32 {
        self.coordinates[3]@
    }

    /// Left is not right of right, bottom is not above top.
    pub open spec fn wf(&self) -> bool {
        self.left_bits() <= self.right_bits() && self.bottom_bits() <= self.top_bits()
    }

    pub fn left(&self) -> (r: RealNumber)
        ensures
            r@ == self.left_bits(),
    {
        self.coordinates[LEFT_INDEX]
    }

    pub fn right(&self) -> (r: RealNumber)
        ensures
            r@ == self.right_bits(),
    {
        self.coordinates[RIGHT_INDEX]
    }

    pub fn top(&self) -> (r: RealNumber)
        ensures
            r@ == self.top_bits(),
    {
        self.coordinates[TOP_INDEX]
    }

    pub fn bottom(&self) -> (r: RealNumber)
        ensures
            r@ == self.bottom_bits(),
    {
        self.coordinates[BOTTOM_INDEX]
    }

    /// Coordinate `index` in the order top, bottom, left, right.
    pub fn get(&self, index: usize) -> (r: RealNumber)
        requires
            index < 4,
        ensures
            r == self.coordinates[index as int],
    {
        self.coordinates[index]
    }

    /// The smallest box holding both vertices.
    pub fn from_vertices(v1: &Point2D, v2: &Point2D) -> (r: Self)
        ensures
            r.wf(),
            r.top_bits() == (if v1.y@ >= v2.y@ { v1.y@ } else { v2.y@ }),
            r.bottom_bits() == (if v1.y@ <= v2.y@ { v1.y@ } else { v2.y@ }),
            r.left_bits() == (if v1.x@ <= v2.x@ { v1.x@ } else { v2.x@ }),
            r.right_bits() == (if v1.x@ >= v2.x@ { v1.x@ } else { v2.x@ }),
    {
        BoundingBox { coordinates: [v1.y.max(v2.y), v1.y.min(v2.y), v1.x.min(v2.x), v1.x.max(v2.x)] }
    }

    pub fn new(left: RealNumber, right: RealNumber, top: RealNumber, bottom: RealNumber) -> (r: Self)
        ensures
            r.left_bits() == left@,
            r.right_bits() == right@,
            r.top_bits() == top@,
            r.bottom_bits() == bottom@,
    {
        BoundingBox { coordinates: [top, bottom, left, right] }
    }

    /// A box that any vertex expands: its left and bottom are at the largest map
    /// coordinate, its right and top at the smallest.
    pub fn new_empty() -> (r: Self)
        ensures
            r.left_bits() == 32767 * 65536,
            r.right_bits() == -32768 * 65536,
            r.top_bits() == -32768 * 65536,
            r.bottom_bits() == 32767 * 65536,
    {
        Self::new(
            RealNumber::new(32767),
            RealNumber::new(-32768),
            RealNumber::new(-32768),
            RealNumber::new(32767),
        )
    }

    /// Grows the box to hold `vertex`.
    pub fn expand(&mut self, vertex: &Point2D)
        ensures
            final(self).left_bits() == (if vertex.x@ < old(self).left_bits() { vertex.x@ } else { old(self).left_bits() }),
            final(self).right_bits() == (if vertex.x@ > old(self).right_bits() { vertex.x@ } else { old(self).right_bits() }),
            final(self).bottom_bits() == (if vertex.y@ < old(self).bottom_bits() { vertex.y@ } else { old(self).bottom_bits() }),
            final(self).top_bits() == (if vertex.y@ > old(self).top_bits() { vertex.y@ } else { old(self).top_bits() }),
    {
        if vertex.x.lt(self.coordinates[LEFT_INDEX]) {
            self.coordinates[LEFT_INDEX] = vertex.x;
        }
        if vertex.x.gt(self.coordinates[RIGHT_INDEX]) {
            self.coordinates[RIGHT_INDEX] = vertex.x;
        }
        if vertex.y.lt(self.coordinates[BOTTOM_INDEX]) {
            self.coordinates[BOTTOM_INDEX] = vertex.y;
        }
        if vertex.y.gt(self.coordinates[TOP_INDEX]) {
            self.coordinates[TOP_INDEX] = vertex.y;
        }
    }
}

} // verus!
