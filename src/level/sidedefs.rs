use vstd::prelude::*;
use crate::bytes::{le_i16, le_u16, name_bytes, read_i16, read_name, read_u16};
use crate::graphics::textures::{texture_known, TextureData, TextureNumber};
use crate::number::RealNumber;

verus! {

/// Size of a side-def record.
pub const SIDEDEF_SIZE: usize = 30;

/// One side of a line: texture offsets, its three textures and the sector it faces.
#[derive(Copy, Clone, Debug)]
pub struct SideDef {
    pub texture_offset: RealNumber,
    pub row_offset: RealNumber,
    pub top_texture: TextureNumber,
    pub bottom_texture: TextureNumber,
    pub mid_texture: TextureNumber,
    pub sector_index: usize,
}

/// A texture number that a side may name: 0 or a texture of the data.
pub open spec fn texture_ok(textures: &TextureData, t: TextureNumber) -> bool {
    t.0 == 0 || t.0 < textures.textures@.len()
}

/// The three texture names of side-def record `k` name textures.
pub open spec fn side_record_ok(textures: &TextureData, data: Seq<u8>, k: int) -> bool {
    &&& texture_known(textures, name_bytes(data.subrange(30 * k + 4, 30 * k + 12)))
    &&& texture_known(textures, name_bytes(data.subrange(30 * k + 12, 30 * k + 20)))
    &&& texture_known(textures, name_bytes(data.subrange(30 * k + 20, 30 * k + 28)))
}

/// Reads every whole side-def record; `None` when a record names a texture that does not
/// exist.
pub fn load(data: &[u8], textures: &TextureData) -> (r: Option<Vec<SideDef>>)
    ensures
        r is Some <==> forall|k: int| 0 <= k < data@.len() / 30 ==> #[trigger] side_record_ok(textures, data@, k),
        r matches Some(sides) ==> {
            &&& sides@.len() == data@.len() / 30
            &&& forall|i: int|
                0 <= i < sides@.len() ==> {
                    &&& (#[trigger] sides@[i]).texture_offset@ == le_i16(data@, 30 * i) * 65536
                    &&& sides@[i].row_offset@ == le_i16(data@, 30 * i + 2) * 65536
                    &&& sides@[i].sector_index == le_u16(data@, 30 * i + 28)
                    &&& texture_ok(textures, sides@[i].top_texture)
                    &&& texture_ok(textures, sides@[i].bottom_texture)
                    &&& texture_ok(textures, sides@[i].mid_texture)
                }
        },
{
    let len = data.len();
    let n = len / SIDEDEF_SIZE;
    let mut sides: Vec<SideDef> = Vec::new();
    let mut i: usize = 0;
    while i < n
        invariant
            i <= n,
            len == data@.len(),
            n == data@.len() / 30,
            sides@.len() == i,
            forall|k: int| 0 <= k < i ==> #[trigger] side_record_ok(textures, data@, k),
            forall|k: int|
                0 <= k < i ==> {
                    &&& (#[trigger] sides@[k]).texture_offset@ == le_i16(data@, 30 * k) * 65536
                    &&& sides@[k].row_offset@ == le_i16(data@, 30 * k + 2) * 65536
                    &&& sides@[k].sector_index == le_u16(data@, 30 * k + 28)
                    &&& texture_ok(textures, sides@[k].top_texture)
                    &&& texture_ok(textures, sides@[k].bottom_texture)
                    &&& texture_ok(textures, sides@[k].mid_texture)
                },
        decreases n - i,
    {
        let at = SIDEDEF_SIZE * i;
        let top_name = read_name(data, at + 4, 8);
        let bottom_name = read_name(data, at + 12, 8);
        let mid_name = read_name(data, at + 20, 8);
        let top_texture = match textures.get_texture_number(top_name.as_slice()) {
            Some(t) => t,
            None => {
                assert(!side_record_ok(textures, data@, i as int));
                return None;
            },
        };
        let bottom_texture = match textures.get_texture_number(bottom_name.as_slice()) {
            Some(t) => t,
            None => {
                assert(!side_record_ok(textures, data@, i as int));
                return None;
            },
        };
        let mid_texture = match textures.get_texture_number(mid_name.as_slice()) {
            Some(t) => t,
            None => {
                assert(!side_record_ok(textures, data@, i as int));
                return None;
            },
        };
        assert(side_record_ok(textures, data@, i as int));
        sides.push(
            SideDef {
                texture_offset: RealNumber::new(read_i16(data, at) as i32),
                row_offset: RealNumber::new(read_i16(data, at + 2) as i32),
                top_texture,
                bottom_texture,
                mid_texture,
                sector_index: read_u16(data, at + 28) as usize,
            },
        );
        i = i + 1;
    }
    Some(sides)
}

} // verus!
