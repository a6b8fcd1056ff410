use vstd::prelude::*;
use crate::bytes::{le_i16, le_u32, name_bytes, read_i16, read_name, read_padded_name, read_u32};
use crate::number::RealNumber;
use crate::rendering::patch::Patch;
use crate::wad::{bytes_equal, By, LumpStore};

verus! {

/// Size of a texture record before its patch list.
pub const TEXTURE_HEADER_SIZE: usize = 22;

/// Size of one patch placement in a texture record.
pub const TEXTURE_PATCH_SIZE: usize = 10;

/// A wall texture, numbered in the order of the texture lumps; 0 stands for no texture.
#[derive(Copy, Clone, Debug, PartialEq, Eq, Structural)]
pub struct TextureNumber(pub usize);

impl TextureNumber {
    pub fn is_zero(&self) -> (r: bool)
        ensures
            r == (self.0 == 0),
    {
        self.0 == 0
    }
}

/// One patch placed in a composite texture.
#[derive(Copy, Clone, Debug)]
pub struct TexturePatch {
    pub originx: i32,
    pub originy: i32,
    pub patch_index: usize,
}

/// A composite wall texture.
#[derive(Clone, Debug)]
pub struct Texture {
    pub name: Vec<u8>,
    pub width: u32,
    pub height: u32,
    pub patches: Vec<TexturePatch>,
}

impl Texture {
    pub fn name(&self) -> (r: &Vec<u8>)
        ensures
            r == &self.name,
    {
        &self.name
    }
}

/// Why the graphics could not be read.
#[derive(Copy, Clone, Debug, PartialEq, Eq, Structural)]
pub enum GraphicsError {
    /// A lump that the graphics need is absent.
    MissingLump,
    /// The patch name table is shorter than its count says.
    BadPatchNames,
    /// A texture directory or record runs past the end of its lump.
    BadTextureDirectory,
}

/// Texture record `k` of a texture lump is inside the lump, patches included.
pub open spec fn texture_record_ok(lump: Seq<u8>, k: int) -> bool {
    let off = le_u32(lump, 4 + 4 * k);
    off + 22 <= lump.len() && le_i16(lump, off + 20) >= 0 && off + 22 + 10 * le_i16(lump, off + 20)
        <= lump.len()
}

/// Texture `t` is what record `k` of a texture lump describes: its name (the bytes before
/// the first zero), its width (negative read as 0), and its number of patches.
pub open spec fn texture_from_record(t: Texture, lump: Seq<u8>, k: int) -> bool {
    let off = le_u32(lump, 4 + 4 * k);
    let w = le_i16(lump, off + 12);
    &&& t.name@ == name_bytes(lump.subrange(off, off + 8))
    &&& t.width == (if w < 0 { 0 } else { w })
    &&& t.patches@.len() == le_i16(lump, off + 20)
}

/// The height of texture record `k` of a texture lump, negative heights read as 0.
pub open spec fn texture_record_height(lump: Seq<u8>, k: int) -> int {
    let h = le_i16(lump, le_u32(lump, 4 + 4 * k) + 14);
    if h < 0 { 0 } else { h }
}

/// A texture lump is readable: its directory and every record lie inside it.
pub open spec fn texture_lump_ok(lump: Seq<u8>) -> bool {
    lump.len() >= 4 && 4 + 4 * le_u32(lump, 0) <= lump.len() && forall|k: int|
        0 <= k < le_u32(lump, 0) ==> #[trigger] texture_record_ok(lump, k)
}

/// A patch name table is readable: its names lie inside it.
pub open spec fn pnames_ok(lump: Seq<u8>) -> bool {
    lump.len() >= 4 && 4 + 8 * le_u32(lump, 0) <= lump.len()
}

/// The archive's patch names and texture lumps are readable: `PNAMES` and `TEXTURE1` are
/// present and well formed, and so is `TEXTURE2` when present.
pub open spec fn textures_readable(lumps: &LumpStore) -> bool {
    &&& exists|p: int| lumps.finds(pnames_name(), p) && pnames_ok(lumps.lump_data(p))
    &&& exists|t: int| lumps.finds(texture1_name(), t) && texture_lump_ok(lumps.lump_data(t))
    &&& forall|t: int| lumps.finds(texture2_name(), t) ==> texture_lump_ok(lumps.lump_data(t))
}

pub open spec fn pnames_name() -> Seq<u8> {
    seq![80u8, 78u8, 65u8, 77u8, 69u8, 83u8]
}

pub open spec fn texture1_name() -> Seq<u8> {
    seq![84u8, 69u8, 88u8, 84u8, 85u8, 82u8, 69u8, 49u8]
}

pub open spec fn texture2_name() -> Seq<u8> {
    seq![84u8, 69u8, 88u8, 84u8, 85u8, 82u8, 69u8, 50u8]
}

/// A side may name this texture: `-` (no texture) or the name of a texture.
pub open spec fn texture_known(textures: &TextureData, name: Seq<u8>) -> bool {
    (name.len() > 0 && name[0] == 45u8) || exists|i: int| 0 <= i < textures.textures@.len() && #[trigger] textures.textures@[i].name@ == name
}

/// The textures of the texture lumps: names, sizes, patches, heights as reals and the
/// translation table used for animation.
pub struct TextureData {
    pub patch_names: Vec<Vec<u8>>,
    pub textures: Vec<Texture>,
    pub texture_translation: Vec<TextureNumber>,
    pub texture_height: Vec<RealNumber>,
    pub texture_width_mask: Vec<u32>,
}

impl TextureData {
    /// The tables have one entry per texture and translate each texture into one.
    pub open spec fn wf(&self) -> bool {
        &&& self.texture_translation@.len() == self.textures@.len()
        &&& self.texture_height@.len() == self.textures@.len()
        &&& self.texture_width_mask@.len() == self.textures@.len()
        &&& forall|i: int|
            0 <= i < self.textures@.len() ==> (#[trigger] self.texture_translation@[i]).0
                < self.textures@.len()
    }

    /// Reads `PNAMES` and the textures of `TEXTURE1`, then of `TEXTURE2` when present.
    pub fn init(lumps: &LumpStore) -> (r: Result<Self, GraphicsError>)
        requires
            lumps.wf(),
        ensures
            r is Ok <==> textures_readable(lumps),
            r matches Ok(t) ==> t.wf(),
            r matches Ok(t) ==> forall|i: int|
                0 <= i < t.textures@.len() ==> (#[trigger] t.texture_translation@[i]).0 == i,
            r matches Ok(t) ==> exists|t1: int| {
                &&& lumps.finds(texture1_name(), t1)
                &&& t.textures@.len() >= le_u32(lumps.lump_data(t1), 0)
                &&& forall|k: int| 0 <= k < le_u32(lumps.lump_data(t1), 0) ==> (#[trigger] t.texture_height@[k])@ == (if texture_record_height(lumps.lump_data(t1), k) > 32767 { 32767 } else { texture_record_height(lumps.lump_data(t1), k) }) * 65536
                &&& forall|k: int| 0 <= k < le_u32(lumps.lump_data(t1), 0) ==> texture_from_record(#[trigger] t.textures@[k], lumps.lump_data(t1), k)
            },
            r is Err ==> r == Err::<Self, GraphicsError>(GraphicsError::MissingLump) || r == Err::<
                Self,
                GraphicsError,
            >(GraphicsError::BadPatchNames) || r == Err::<Self, GraphicsError>(
                GraphicsError::BadTextureDirectory,
            ),
    {
        let pnames_name_bytes: Vec<u8> = vec![80u8, 78u8, 65u8, 77u8, 69u8, 83u8];
        assert(pnames_name_bytes@ == pnames_name());
        let pnames_number = match lumps.find_lump(pnames_name_bytes.as_slice()) {
            Some(n) => n,
            None => return Err(GraphicsError::MissingLump),
        };
        let pnames = lumps.get_lump(By::Number(pnames_number));
        proof {
            crate::graphics::flats::lemma_finds_unique(lumps, pnames_name(), pnames_number.0 as int);
        }
        if pnames.len() < 4 {
            return Err(GraphicsError::BadPatchNames);
        }
        let plen = pnames.len();
        let count = read_u32(pnames, 0) as usize;
        if count > (plen - 4) / 8 {
            return Err(GraphicsError::BadPatchNames);
        }
        let mut patch_names: Vec<Vec<u8>> = Vec::new();
        let mut i: usize = 0;
        while i < count
            invariant
                i <= count,
                4 + 8 * count <= pnames@.len(),
                plen == pnames@.len(),
            decreases count - i,
        {
            patch_names.push(read_padded_name(pnames, 4 + 8 * i, 8));
            i = i + 1;
        }
        let mut textures: Vec<Texture> = Vec::new();
        let texture1_name_bytes: Vec<u8> = vec![84u8, 69u8, 88u8, 84u8, 85u8, 82u8, 69u8, 49u8];
        assert(texture1_name_bytes@ == texture1_name());
        let t1 = match lumps.find_lump(texture1_name_bytes.as_slice()) {
            Some(n) => n,
            None => return Err(GraphicsError::MissingLump),
        };
        proof {
            crate::graphics::flats::lemma_finds_unique(lumps, texture1_name(), t1.0 as int);
        }
        let ghost len0 = textures@.len();
        assert(len0 == 0);
        if !read_texture_lump(lumps.get_lump(By::Number(t1)), &mut textures) {
            return Err(GraphicsError::BadTextureDirectory);
        }
        let ghost count1 = le_u32(lumps.lump_data(t1.0 as int), 0);
        let ghost first_textures = textures@;
        let texture2_name_bytes: Vec<u8> = vec![84u8, 69u8, 88u8, 84u8, 85u8, 82u8, 69u8, 50u8];
        assert(texture2_name_bytes@ == texture2_name());
        match lumps.find_lump(texture2_name_bytes.as_slice()) {
            Some(n) => {
                proof {
                    crate::graphics::flats::lemma_finds_unique(lumps, texture2_name(), n.0 as int);
                }
                if !read_texture_lump(lumps.get_lump(By::Number(n)), &mut textures) {
                    return Err(GraphicsError::BadTextureDirectory);
                }
            },
            None => {},
        }
        assert(forall|k: int| 0 <= k < count1 ==> (#[trigger] textures@[k]).height == first_textures[k].height);
        assert(forall|k: int| 0 <= k < count1 ==> #[trigger] textures@[k] == first_textures[k]);
        let n = textures.len();
        let mut texture_translation: Vec<TextureNumber> = Vec::new();
        let mut texture_height: Vec<RealNumber> = Vec::new();
        let mut texture_width_mask: Vec<u32> = Vec::new();
        let mut k: usize = 0;
        while k < n
            invariant
                k <= n,
                n == textures@.len(),
                texture_translation@.len() == k,
                texture_height@.len() == k,
                texture_width_mask@.len() == k,
                forall|j: int| 0 <= j < k ==> (#[trigger] texture_translation@[j]).0 == j,
                forall|j: int| 0 <= j < k ==> (#[trigger] texture_height@[j])@ == (if textures@[j].height > 32767 { 32767 } else { textures@[j].height as int }) * 65536,
            decreases n - k,
        {
            texture_translation.push(TextureNumber(k));
            let height = textures[k].height;
            let height: i32 = if height > 32767 { 32767 } else { height as i32 };
            texture_height.push(RealNumber::new(height));
            texture_width_mask.push(width_mask(textures[k].width));
            k = k + 1;
        }
        let r = TextureData { patch_names, textures, texture_translation, texture_height, texture_width_mask };
        assert(lumps.finds(texture1_name(), t1.0 as int));
        assert(forall|k: int| 0 <= k < count1 ==> (#[trigger] r.texture_height@[k])@ == (if texture_record_height(lumps.lump_data(t1.0 as int), k) > 32767 { 32767 } else { texture_record_height(lumps.lump_data(t1.0 as int), k) }) * 65536) by {
            assert forall|k: int| 0 <= k < count1 implies (#[trigger] r.texture_height@[k])@ == (if texture_record_height(lumps.lump_data(t1.0 as int), k) > 32767 { 32767 } else { texture_record_height(lumps.lump_data(t1.0 as int), k) }) * 65536 by {
                assert(first_textures[len0 + k].height == texture_record_height(lumps.lump_data(t1.0 as int), k));
            }
        }
        assert forall|k: int| 0 <= k < count1 implies texture_from_record(#[trigger] r.textures@[k], lumps.lump_data(t1.0 as int), k) by {
            assert(texture_from_record(first_textures[len0 + k], lumps.lump_data(t1.0 as int), k));
        }
        Ok(r)
    }

    /// The number of a texture name: 0 for a name starting with `-`, else the first
    /// texture of exactly that name.
    pub fn get_texture_number(&self, name: &[u8]) -> (r: Option<TextureNumber>)
        ensures
            name@.len() > 0 && name@[0] == 45u8 ==> r == Some(TextureNumber(0)),
            !(name@.len() > 0 && name@[0] == 45u8) ==> {
                &&& r is None <==> forall|i: int|
                    0 <= i < self.textures@.len() ==> #[trigger] self.textures@[i].name@ != name@
                &&& r matches Some(t) ==> t.0 < self.textures@.len() && self.textures@[t.0 as int].name@
                    == name@ && forall|i: int|
                    0 <= i < t.0 ==> #[trigger] self.textures@[i].name@ != name@
            },
    {
        if name.len() > 0 && name[0] == 45u8 {
            return Some(TextureNumber(0));
        }
        let mut i: usize = 0;
        while i < self.textures.len()
            invariant
                i <= self.textures@.len(),
                !(name@.len() > 0 && name@[0] == 45u8),
                forall|j: int| 0 <= j < i ==> #[trigger] self.textures@[j].name@ != name@,
            decreases self.textures@.len() - i,
        {
            if bytes_equal(self.textures[i].name.as_slice(), name) {
                return Some(TextureNumber(i));
            }
            i = i + 1;
        }
        None
    }

    pub fn get_texture_translation(&self, texture_number: TextureNumber) -> (r: TextureNumber)
        requires
            self.wf(),
            texture_number.0 < self.textures@.len(),
        ensures
            r == self.texture_translation@[texture_number.0 as int],
            r.0 < self.textures@.len(),
    {
        self.texture_translation[texture_number.0]
    }

    pub fn get_texture_height(&self, texture_number: TextureNumber) -> (r: RealNumber)
        requires
            self.wf(),
            texture_number.0 < self.textures@.len(),
        ensures
            r == self.texture_height@[texture_number.0 as int],
    {
        self.texture_height[texture_number.0]
    }
}

/// The largest power of two not above `width` (1 for widths below 2), less one.
pub open spec fn width_mask_spec(width: u32) -> int
    decreases width,
{
    if width < 2 {
        0
    } else {
        2 * width_mask_spec(width / 2) + 1
    }
}

fn width_mask(width: u32) -> (r: u32)
    ensures
        r == width_mask_spec(width),
{
    let mut j: u32 = 1;
    let mut w: u32 = width;
    while w >= 2
        invariant
            1 <= j,
            w <= width,
            (j as int) * (width_mask_spec(w) + 1) == width_mask_spec(width) + 1,
            w as int * j as int <= width as int,
        decreases w,
    {
        assert(j * 2 <= u32::MAX) by (nonlinear_arith)
            requires
                w >= 2,
                w as int * j as int <= width as int,
                width <= u32::MAX,
                j >= 1,
        ;
        assert((j as int * 2) * (width_mask_spec(w / 2) + 1) == width_mask_spec(width) + 1) by (nonlinear_arith)
            requires
                (j as int) * (width_mask_spec(w) + 1) == width_mask_spec(width) + 1,
                width_mask_spec(w) == 2 * width_mask_spec(w / 2) + 1,
        ;
        assert((w / 2) as int * (j as int * 2) <= width as int) by (nonlinear_arith)
            requires
                w as int * j as int <= width as int,
                j >= 1,
        ;
        j = j * 2;
        w = w / 2;
    }
    assert(width_mask_spec(w) == 0);
    let ghost m = width_mask_spec(w);
    assert((j as int) * (m + 1) == j as int) by (nonlinear_arith)
        requires
            m == 0,
    ;
    j - 1
}

/// Appends the textures of one texture lump; false when its directory or a record runs
/// past the end of the lump, or a height is negative.
fn read_texture_lump(lump: &[u8], textures: &mut Vec<Texture>) -> (r: bool)
    ensures
        r == texture_lump_ok(lump@),
        r ==> final(textures)@.len() == old(textures)@.len() + le_u32(lump@, 0),
        r ==> forall|k: int| 0 <= k < le_u32(lump@, 0) ==> (#[trigger] final(textures)@[old(textures)@.len() + k]).height == texture_record_height(lump@, k)
            && texture_from_record(final(textures)@[old(textures)@.len() + k], lump@, k),
        r ==> forall|k: int| 0 <= k < old(textures)@.len() ==> #[trigger] final(textures)@[k] == old(textures)@[k],
{
    let len = lump.len();
    if len < 4 {
        return false;
    }
    let count = read_u32(lump, 0) as usize;
    if count > (len - 4) / 4 {
        return false;
    }
    let ghost start = textures@.len();
    let ghost old_textures = textures@;
    let mut k: usize = 0;
    while k < count
        invariant
            k <= count,
            len == lump@.len(),
            4 + 4 * count <= len,
            count == le_u32(lump@, 0),
            textures@.len() == old_textures.len() + k,
            start == old_textures.len(),
            old_textures == old(textures)@,
            forall|j: int| 0 <= j < k ==> #[trigger] texture_record_ok(lump@, j),
            forall|j: int| 0 <= j < k ==> (#[trigger] textures@[start + j]).height == texture_record_height(lump@, j)
                && texture_from_record(textures@[start + j], lump@, j),
            forall|j: int| 0 <= j < start ==> #[trigger] textures@[j] == old_textures[j],
        decreases count - k,
    {
        let offset = read_u32(lump, 4 + 4 * k) as usize;
        if offset > len || len - offset < TEXTURE_HEADER_SIZE {
            assert(!texture_record_ok(lump@, k as int));
            return false;
        }
        let patch_count = read_i16(lump, offset + 20);
        if patch_count < 0 || (patch_count as usize) > (len - offset - TEXTURE_HEADER_SIZE) / 10 {
            assert(!texture_record_ok(lump@, k as int));
            return false;
        }
        assert(texture_record_ok(lump@, k as int));
        let name = read_name(lump, offset, 8);
        let width = read_i16(lump, offset + 12);
        let height = read_i16(lump, offset + 14);
        let mut patches: Vec<TexturePatch> = Vec::new();
        let mut p: usize = 0;
        while p < patch_count as usize
            invariant
                p <= patch_count,
                0 <= patch_count,
                patches@.len() == p,
                offset + TEXTURE_HEADER_SIZE + 10 * patch_count <= len,
                len == lump@.len(),
            decreases patch_count - p,
        {
            let at = offset + TEXTURE_HEADER_SIZE + 10 * p;
            let originx = read_i16(lump, at) as i32;
            let originy = read_i16(lump, at + 2) as i32;
            let patch_index = read_u16_index(lump, at + 4);
            patches.push(TexturePatch { originx, originy, patch_index });
            p = p + 1;
        }
        let width = if width < 0 { 0u32 } else { width as u32 };
        let height = if height < 0 { 0u32 } else { height as u32 };
        let ghost before = textures@;
        textures.push(Texture { name, width, height, patches });
        proof {
            assert forall|j: int| 0 <= j < k + 1 implies (#[trigger] textures@[start + j]).height == texture_record_height(lump@, j)
                && texture_from_record(textures@[start + j], lump@, j) by {
                if j < k {
                    assert(textures@[start + j] == before[start + j]);
                }
            }
            assert forall|j: int| 0 <= j < start implies #[trigger] textures@[j] == old_textures[j] by {
                assert(textures@[j] == before[j]);
            }
        }
        k = k + 1;
    }
    true
}

/// A 16-bit little-endian index.
fn read_u16_index(b: &[u8], at: usize) -> (r: usize)
    requires
        at + 2 <= b@.len(),
    ensures
        r == crate::bytes::le_u16(b@, at as int),
{
    crate::bytes::read_u16(b, at) as usize
}


impl TextureData {
    /// The patch of each `PNAMES` entry, read from the lump of that name; `None` where no
    /// lump has the name or the lump is shorter than a patch header.
    pub fn load_patches(&self, lumps: &LumpStore) -> (r: Vec<Option<Patch>>)
        requires
            lumps.wf(),
        ensures
            r@.len() == self.patch_names@.len(),
            forall|i: int| 0 <= i < r@.len() ==> (#[trigger] r@[i] matches Some(p) ==> p.wf()),
            forall|i: int| 0 <= i < r@.len() ==> ((#[trigger] r@[i] is Some) <==> exists|n: int|
                lumps.finds(self.patch_names@[i]@, n) && lumps.lump_data(n).len() >= 8),
            forall|i: int| 0 <= i < r@.len() ==> (#[trigger] r@[i] matches Some(p) ==> exists|n: int|
                lumps.finds(self.patch_names@[i]@, n) && p.data@ == lumps.lump_data(n)),
    {
        let mut patches: Vec<Option<Patch>> = Vec::new();
        let mut i: usize = 0;
        while i < self.patch_names.len()
            invariant
                lumps.wf(),
                i <= self.patch_names@.len(),
                patches@.len() == i,
                forall|k: int| 0 <= k < i ==> (#[trigger] patches@[k] matches Some(p) ==> p.wf()),
                forall|k: int| 0 <= k < i ==> ((#[trigger] patches@[k] is Some) <==> exists|n: int|
                    lumps.finds(self.patch_names@[k]@, n) && lumps.lump_data(n).len() >= 8),
                forall|k: int| 0 <= k < i ==> (#[trigger] patches@[k] matches Some(p) ==> exists|n: int|
                    lumps.finds(self.patch_names@[k]@, n) && p.data@ == lumps.lump_data(n)),
            decreases self.patch_names@.len() - i,
        {
            let patch = match lumps.find_lump(self.patch_names[i].as_slice()) {
                Some(n) => {
                    proof {
                        crate::graphics::flats::lemma_finds_unique(lumps, self.patch_names@[i as int]@, n.0 as int);
                    }
                    let data = lumps.get_lump(By::Number(n));
                    if data.len() >= 8 {
                        Some(Patch::new(vstd::slice::slice_to_vec(data)))
                    } else {
                        None
                    }
                },
                None => None,
            };
            let ghost before = patches@;
            patches.push(patch);
            proof {
                assert forall|k: int| 0 <= k < i + 1 implies ((#[trigger] patches@[k] is Some) <==> exists|n: int|
                    lumps.finds(self.patch_names@[k]@, n) && lumps.lump_data(n).len() >= 8) by {
                    if k < i {
                        assert(patches@[k] == before[k]);
                    }
                }
                assert forall|k: int| 0 <= k < i + 1 implies (#[trigger] patches@[k] matches Some(p) ==> exists|n: int|
                    lumps.finds(self.patch_names@[k]@, n) && p.data@ == lumps.lump_data(n)) by {
                    if k < i {
                        assert(patches@[k] == before[k]);
                    }
                }
            }
            i = i + 1;
        }
        patches
    }

    /// Column `col` of texture `t`, composed from its patches in order (later ones on
    /// top); rows that no patch covers are 0. A texture of height 0 gives one row.
    pub fn composite_column(&self, t: TextureNumber, col: i32, patches: &Vec<Option<Patch>>) -> (r: Vec<u8>)
        requires
            t.0 < self.textures@.len(),
            forall|i: int| 0 <= i < patches@.len() ==> (#[trigger] patches@[i] matches Some(p) ==> p.wf()),
        ensures
            r@.len() == (if self.textures@[t.0 as int].height == 0 { 1 } else if self.textures@[t.0 as int].height > 32768 { 32768 } else { self.textures@[t.0 as int].height as int }),
    {
        let texture = &self.textures[t.0];
        let h: usize = if texture.height == 0 { 1 } else if texture.height > 32768 { 32768 } else { texture.height as usize };
        let mut out: Vec<u8> = Vec::new();
        let mut y: usize = 0;
        while y < h
            invariant
                y <= h,
                out@.len() == y,
            decreases h - y,
        {
            out.push(0);
            y = y + 1;
        }
        let mut k: usize = 0;
        while k < texture.patches.len()
            invariant
                out@.len() == h,
                h <= 32768,
                forall|i: int| 0 <= i < patches@.len() ==> (#[trigger] patches@[i] matches Some(p) ==> p.wf()),
            decreases texture.patches@.len() - k,
        {
            let placed = texture.patches[k];
            if placed.patch_index < patches.len() {
                match &patches[placed.patch_index] {
                    Some(patch) => {
                        let x = col as i64 - placed.originx as i64;
                        if 0 <= x && x < patch.width() as i64 {
                            match patch.get_column(x as usize) {
                                Some(column) => {
                                    let posts = column.posts(patch);
                                    let mut p: usize = 0;
                                    while p < posts.len()
                                        invariant
                                            out@.len() == h,
                                            h <= 32768,
                                            forall|q: int| 0 <= q < posts@.len() ==> (#[trigger] posts@[q]).length == posts@[q].data@.len() && 0 <= posts@[q].top_delta < 255 && posts@[q].data@.len() < 256,
                                        decreases posts@.len() - p,
                                    {
                                        let post = &posts[p];
                                        let mut i: usize = 0;
                                        while i < post.data.len()
                                            invariant
                                                out@.len() == h,
                                                h <= 32768,
                                                i <= post.data@.len(),
                                                post.data@.len() < 0x10000,
                                            decreases post.data@.len() - i,
                                        {
                                            let row = placed.originy as i64 + post.top_delta as i64 + i as i64;
                                            if 0 <= row && row < h as i64 {
                                                out.set(row as usize, post.data[i]);
                                            }
                                            i = i + 1;
                                        }
                                        p = p + 1;
                                    }
                                },
                                None => {},
                            }
                        }
                    },
                    None => {},
                }
            }
            k = k + 1;
        }
        out
    }
}

} // verus!
