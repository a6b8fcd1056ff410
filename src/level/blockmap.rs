use vstd::prelude::*;
use crate::bytes::{le_i16, read_i16};
use crate::number::RealNumber;

verus! {

/// The blockmap header: origin and size in blocks, followed by the block lists, kept as
/// they are.
pub struct Blockmap {
    pub data: Vec<u8>,
    pub origin_x: RealNumber,
    pub origin_y: RealNumber,
    pub width: RealNumber,
    pub height: RealNumber,
}

impl Blockmap {
    pub fn origin_x(&self) -> (r: RealNumber)
        ensures
            r == self.origin_x,
    {
        self.origin_x
    }

    pub fn origin_y(&self) -> (r: RealNumber)
        ensures
            r == self.origin_y,
    {
        self.origin_y
    }

    pub fn width(&self) -> (r: RealNumber)
        ensures
            r == self.width,
    {
        self.width
    }

    pub fn height(&self) -> (r: RealNumber)
        ensures
            r == self.height,
    {
        self.height
    }
}

/// Reads a `BLOCKMAP` lump; `None` when it is shorter than its header.
pub fn load(data: &[u8]) -> (r: Option<Blockmap>)
    ensures
        r is None <==> data@.len() < 8,
        r matches Some(b) ==> {
            &&& b.data@ == data@
            &&& b.origin_x@ == le_i16(data@, 0) * 65536
            &&& b.origin_y@ == le_i16(data@, 2) * 65536
            &&& b.width@ == le_i16(data@, 4) * 65536
            &&& b.height@ == le_i16(data@, 6) * 65536
        },
{
    if data.len() < 8 {
        return None;
    }
    Some(
        Blockmap {
            data: vstd::slice::slice_to_vec(data),
            origin_x: RealNumber::new(read_i16(data, 0) as i32),
            origin_y: RealNumber::new(read_i16(data, 2) as i32),
            width: RealNumber::new(read_i16(data, 4) as i32),
            height: RealNumber::new(read_i16(data, 6) as i32),
        },
    )
}

} // verus!
