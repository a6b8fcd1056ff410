use vstd::prelude::*;
use crate::number::RealNumber;

verus! {

/// Size of the draw-seg pool.
pub const MAX_DRAW_SEGS: usize = 256;

pub const SILHOUETTE_NONE: u8 = 0;
pub const SILHOUETTE_TOP: u8 = 1;
pub const SILHOUETTE_BOTTOM: u8 = 2;
pub const SILHOUETTE_BOTH: u8 = 3;

/// What was drawn of one visible wall piece, kept for clipping sprites.
#[derive(Clone, Debug)]
pub struct DrawSeg {
    pub seg_index: usize,
    pub x1: i32,
    pub x2: i32,
    pub scale1: RealNumber,
    pub scale2: RealNumber,
    pub scale_step: RealNumber,
    pub silhouette: u8,
    pub bsilheight: RealNumber,
    pub tsilheight: RealNumber,
    pub sprite_top_clip: Option<Vec<i16>>,
    pub sprite_bottom_clip: Option<Vec<i16>>,
}

/// The draw segs of a frame, at most `MAX_DRAW_SEGS`.
pub struct DrawSegs {
    pub segs: Vec<DrawSeg>,
}

impl DrawSegs {
    pub fn new() -> (r: Self)
        ensures
            r.segs@.len() == 0,
    {
        DrawSegs { segs: Vec::new() }
    }
}

} // verus!
