pub mod bsp;
pub mod column;
pub mod flats;
pub mod patch;
pub mod screen;
pub mod tables;
pub mod types;

use vstd::prelude::*;
use crate::number::RealNumber;

verus! {

pub const RENDER_WIDTH: usize = 320;
pub const RENDER_HEIGHT: usize = 200;

/// The screen size and detail that the player chose; a new view is due after a change.
pub struct ViewConfiguration {
    pub refresh_view_needed: bool,
    pub blocks: usize,
    pub detail: i32,
}

/// The geometry of the 3D view window.
#[derive(Copy, Clone, Debug)]
pub struct ViewWindow {
    pub width: usize,
    pub height: usize,
    pub scaled_width: usize,
    pub centerx: usize,
    pub centery: usize,
    pub centerxfrac: RealNumber,
    pub centeryfrac: RealNumber,
    pub projection: RealNumber,
    pub detail_shift: u32,
}

impl ViewWindow {
    /// The window fits the screen, and its centre and projection follow from its size.
    pub open spec fn wf(&self) -> bool {
        &&& 2 <= self.width <= RENDER_WIDTH
        &&& 8 <= self.height <= RENDER_HEIGHT
        &&& self.scaled_width <= RENDER_WIDTH
        &&& self.centerx == self.width / 2
        &&& self.centery == self.height / 2
        &&& self.centerxfrac@ == self.centerx * 65536
        &&& self.centeryfrac@ == self.centery * 65536
        &&& self.projection == self.centerxfrac
        &&& self.detail_shift <= 1
    }

    /// The full-screen view at high detail.
    pub fn new() -> (r: Self)
        ensures
            r.wf(),
            r.width == RENDER_WIDTH,
            r.height == RENDER_HEIGHT,
    {
        let centerxfrac = RealNumber::new(160);
        ViewWindow {
            width: RENDER_WIDTH,
            height: RENDER_HEIGHT,
            scaled_width: RENDER_WIDTH,
            centerx: 160,
            centery: 100,
            centerxfrac,
            centeryfrac: RealNumber::new(100),
            projection: centerxfrac,
            detail_shift: 0,
        }
    }
}

/// Width and height of the view for a screen size, before the detail shift.
pub open spec fn view_size(blocks: int) -> (int, int) {
    if blocks == 11 {
        (320, 200)
    } else {
        (blocks * 32, blocks * 168 / 10 - (blocks * 168 / 10) % 8)
    }
}

impl ViewConfiguration {
    pub open spec fn wf(&self) -> bool {
        3 <= self.blocks <= 11 && 0 <= self.detail <= 1
    }

    pub fn new() -> (r: Self)
        ensures
            r.wf(),
            r.blocks == 9,
            r.detail == 0,
            !r.refresh_view_needed,
    {
        ViewConfiguration { refresh_view_needed: false, blocks: 9, detail: 0 }
    }

    /// The view for the chosen screen size and detail.
    pub fn create_view(&mut self) -> (r: ViewWindow)
        requires
            old(self).wf(),
        ensures
            r.wf(),
            !final(self).refresh_view_needed,
            final(self).blocks == old(self).blocks,
            final(self).detail == old(self).detail,
            r.scaled_width == view_size(old(self).blocks as int).0,
            r.height == view_size(old(self).blocks as int).1,
            r.width == view_size(old(self).blocks as int).0 / (if old(self).detail == 1 { 2int } else { 1 }),
            r.detail_shift == old(self).detail,
    {
        self.refresh_view_needed = false;
        let (scaled_view_width, view_height) = if self.blocks == 11 {
            (RENDER_WIDTH, RENDER_HEIGHT)
        } else {
            let h = self.blocks * 168 / 10;
            (self.blocks * 32, h - h % 8)
        };
        let detail_shift = self.detail as u32;
        let view_width = if detail_shift == 1 { scaled_view_width / 2 } else { scaled_view_width };
        let centery = view_height / 2;
        let centerx = view_width / 2;
        let centerxfrac = RealNumber::new(centerx as i32);
        let centeryfrac = RealNumber::new(centery as i32);
        ViewWindow {
            width: view_width,
            height: view_height,
            scaled_width: scaled_view_width,
            centerx,
            centery,
            centerxfrac,
            centeryfrac,
            projection: centerxfrac,
            detail_shift,
        }
    }

    pub fn set_blocks(&mut self, blocks: usize)
        ensures
            final(self).blocks == blocks,
            final(self).detail == old(self).detail,
            final(self).refresh_view_needed,
    {
        self.blocks = blocks;
        self.refresh_view_needed = true;
    }

    pub fn set_detail(&mut self, detail: i32)
        ensures
            final(self).detail == detail,
            final(self).blocks == old(self).blocks,
            final(self).refresh_view_needed,
    {
        self.detail = detail;
        self.refresh_view_needed = true;
    }

    pub fn refresh_view_needed(&self) -> (r: bool)
        ensures
            r == self.refresh_view_needed,
    {
        self.refresh_view_needed
    }
}

} // verus!
