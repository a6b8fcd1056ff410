use vstd::prelude::*;
use crate::number::RealNumber;

verus! {

/// A point in space, as three reals.
#[derive(Copy, Clone, Debug)]
pub struct Vector3 {
    pub x: RealNumber,
    pub y: RealNumber,
    pub z: RealNumber,
}

impl Vector3 {
    pub fn new(x: RealNumber, y: RealNumber, z: RealNumber) -> (r: Self)
        ensures
            r.x == x,
            r.y == y,
            r.z == z,
    {
        Self { x, y, z }
    }
}

} // verus!
