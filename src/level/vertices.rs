use vstd::prelude::*;
use crate::bytes::{le_i16, read_i16};
use crate::number::RealNumber;
use crate::rendering::types::Point2D;

verus! {

/// Size of a vertex record: x and y as 16-bit map units.
pub const VERTEX_SIZE: usize = 4;

/// Reads every whole vertex record of a `VERTEXES` lump.
pub fn load(data: &[u8]) -> (r: Vec<Point2D>)
    ensures
        r@.len() == data@.len() / 4,
        forall|i: int|
            0 <= i < r@.len() ==> (#[trigger] r@[i]).x@ == le_i16(data@, 4 * i) * 65536 && r@[i].y@
                == le_i16(data@, 4 * i + 2) * 65536,
{
    let len = data.len();
    let n = len / VERTEX_SIZE;
    let mut r: Vec<Point2D> = Vec::new();
    let mut i: usize = 0;
    while i < n
        invariant
            i <= n,
            len == data@.len(),
            n == data@.len() / 4,
            r@.len() == i,
            forall|k: int|
                0 <= k < i ==> (#[trigger] r@[k]).x@ == le_i16(data@, 4 * k) * 65536 && r@[k].y@
                    == le_i16(data@, 4 * k + 2) * 65536,
        decreases n - i,
    {
        let x = read_i16(data, 4 * i);
        let y = read_i16(data, 4 * i + 2);
        r.push(Point2D::new(RealNumber::new(x as i32), RealNumber::new(y as i32)));
        i = i + 1;
    }
    r
}

} // verus!
