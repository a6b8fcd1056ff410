pub mod color_maps;
pub mod flats;
pub mod light_table;
pub mod sprites;
pub mod textures;

use vstd::prelude::*;
use crate::graphics::color_maps::ColorMapData;
use crate::graphics::flats::FlatData;
use crate::graphics::sprites::SpriteData;
use crate::graphics::textures::{GraphicsError, TextureData};
use crate::wad::LumpStore;

verus! {

/// The pictures the renderer draws with: wall textures, flats, sprites, color maps.
pub struct GraphicsData {
    pub textures: TextureData,
    pub flats: FlatData,
    pub sprites: SpriteData,
    pub color_maps: ColorMapData,
}

impl GraphicsData {
    pub open spec fn wf(&self) -> bool {
        self.textures.wf() && self.flats.wf() && self.color_maps.wf()
    }

    /// Reads all of them; `MissingLump` when the flat or sprite markers or the color
    /// maps are absent, else the error of the textures.
    pub fn init(lumps: &LumpStore) -> (r: Result<Self, GraphicsError>)
        requires
            lumps.wf(),
            lumps.lump_count() < i32::MAX,
        ensures
            r matches Ok(g) ==> g.wf(),
            r is Ok <==> crate::graphics::textures::textures_readable(lumps) && crate::graphics::flats::flats_present(lumps)
                && crate::graphics::sprites::sprites_present(lumps) && crate::graphics::color_maps::color_maps_present(lumps),
    {
        let textures = match TextureData::init(lumps) {
            Ok(t) => t,
            Err(e) => return Err(e),
        };
        let flats = match FlatData::init(lumps) {
            Some(f) => f,
            None => return Err(GraphicsError::MissingLump),
        };
        let sprites = match SpriteData::init(lumps) {
            Some(s) => s,
            None => return Err(GraphicsError::MissingLump),
        };
        let color_maps = match ColorMapData::init(lumps) {
            Some(c) => c,
            None => return Err(GraphicsError::MissingLump),
        };
        Ok(GraphicsData { textures, flats, sprites, color_maps })
    }

    pub fn textures(&self) -> (r: &TextureData)
        ensures
            r == &self.textures,
    {
        &self.textures
    }

    pub fn flats(&self) -> (r: &FlatData)
        ensures
            r == &self.flats,
    {
        &self.flats
    }

    pub fn color_maps(&self) -> (r: &ColorMapData)
        ensures
            r == &self.color_maps,
    {
        &self.color_maps
    }
}

} // verus!
