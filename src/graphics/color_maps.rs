use vstd::prelude::*;
use crate::wad::{By, LumpStore};

verus! {

/// Number of color maps: light levels from full bright to dark.
pub const NUM_COLOR_MAPS: usize = 32;

/// Size of one color map: a palette index for each palette index.
pub const COLOR_MAP_SIZE: usize = 256;

/// `COLORMAP` is present and holds all the color maps.
pub open spec fn color_maps_present(lumps: &LumpStore) -> bool {
    exists|i: int| lumps.finds(seq![67u8, 79u8, 76u8, 79u8, 82u8, 77u8, 65u8, 80u8], i) && lumps.lump_data(i).len()
        >= NUM_COLOR_MAPS * COLOR_MAP_SIZE
}

/// The color maps of the `COLORMAP` lump.
pub struct ColorMapData {
    pub color_maps: Vec<u8>,
}

impl ColorMapData {
    pub open spec fn wf(&self) -> bool {
        self.color_maps@.len() >= NUM_COLOR_MAPS * COLOR_MAP_SIZE
    }

    /// Reads `COLORMAP`; `None` when it is absent or holds fewer than 32 maps.
    pub fn init(lumps: &LumpStore) -> (r: Option<Self>)
        requires
            lumps.wf(),
        ensures
            r matches Some(c) ==> c.wf() && exists|i: int|
                lumps.finds(seq![67u8, 79u8, 76u8, 79u8, 82u8, 77u8, 65u8, 80u8], i) && c.color_maps@
                    == lumps.lump_data(i),
            r is Some <==> color_maps_present(lumps),
    {
        let name: Vec<u8> = vec![67u8, 79u8, 76u8, 79u8, 82u8, 77u8, 65u8, 80u8];
        let n = match lumps.find_lump(name.as_slice()) {
            Some(n) => n,
            None => return None,
        };
        let lump = lumps.get_lump(By::Number(n));
        proof {
            crate::graphics::flats::lemma_finds_unique(lumps, name@, n.0 as int);
        }
        if lump.len() < NUM_COLOR_MAPS * COLOR_MAP_SIZE {
            return None;
        }
        Some(ColorMapData { color_maps: vstd::slice::slice_to_vec(lump) })
    }

    pub fn color_maps(&self) -> (r: &Vec<u8>)
        ensures
            r == &self.color_maps,
    {
        &self.color_maps
    }

    /// Color map `level`, as 256 palette indices.
    pub fn row(&self, level: usize) -> (r: &[u8])
        requires
            self.wf(),
            level < NUM_COLOR_MAPS,
        ensures
            r@ == self.color_maps@.subrange(level * 256, level * 256 + 256),
    {
        vstd::slice::slice_subrange(self.color_maps.as_slice(), level * COLOR_MAP_SIZE, level * COLOR_MAP_SIZE + COLOR_MAP_SIZE)
    }
}

} // verus!
