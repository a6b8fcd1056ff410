pub mod blockmap;
pub mod bounding_box;
pub mod linedefs;
pub mod nodes;
pub mod sectors;
pub mod segs;
pub mod sidedefs;
pub mod sub_sectors;
pub mod vertices;

use vstd::prelude::*;
use crate::graphics::flats::{flat_known, FlatData, FlatNumber};
use crate::graphics::textures::{TextureData, TextureNumber};
use crate::level::blockmap::Blockmap;
use crate::level::bounding_box::BoundingBox;
use crate::bytes::{le_i16, le_u16};
use crate::level::linedefs::{linedef_vertices_ok, LineDef, FLAG_TWOSIDED};
use crate::level::nodes::{Node, NF_SUBSECTOR};
use crate::level::sectors::{sector_record_ok, Sector};
use crate::level::segs::{seg_record_ok, seg_refs_ok, Seg};
use crate::level::sidedefs::{side_record_ok, SideDef};
use crate::level::sub_sectors::{subsector_record_ok, SubSector};
use crate::number::{real_div_spec, wrap_i32, RealNumber};
use crate::rendering::types::Point2D;
use crate::types::Vector3;
use crate::wad::{By, LumpStore};

verus! {

/// Shift from map coordinates to blockmap blocks.
pub const MAP_BLOCK_SHIFT: u32 = 23;

/// The largest radius of a thing, in map units.
pub const MAX_RADIUS: i32 = 32;

/// Why a level could not be loaded.
#[derive(Copy, Clone, Debug, PartialEq, Eq, Structural)]
pub enum LevelError {
    /// The map number has no `MAPnn` name.
    BadMapNumber,
    /// The map marker or one of the ten lumps after it is absent.
    MissingLump,
    /// The sky flat or a flat a sector names is absent.
    MissingFlat,
    /// The sky texture or a texture a side names is absent.
    MissingTexture,
    /// A record refers to an entity that does not exist, or the BSP is not a tree whose
    /// children come before their parents.
    BadReference,
    /// The second count of the lines around a sector differs from the first (proved
    /// never to happen: both count the same lines).
    Miscounted,
}

/// Whether line `l` has a side facing sector `s`.
pub open spec fn line_touches(l: LineDef, sides: Seq<SideDef>, s: int) -> bool {
    sides[l.front_side_index as int].sector_index == s || (l.back_side_index matches Some(b)
        && sides[b as int].sector_index == s)
}

/// Number of the first `n` lines that touch sector `s`.
pub open spec fn touch_count(lines: Seq<LineDef>, sides: Seq<SideDef>, s: int, n: int) -> int
    decreases n,
{
    if n <= 0 {
        0
    } else {
        touch_count(lines, sides, s, n - 1) + if line_touches(lines[n - 1], sides, s) { 1int } else { 0 }
    }
}

/// A box `(left, right, bottom, top)` grown to hold the point `(x, y)`.
pub open spec fn grow_box(b: (int, int, int, int), x: int, y: int) -> (int, int, int, int) {
    (
        if x < b.0 { x } else { b.0 },
        if x > b.1 { x } else { b.1 },
        if y < b.2 { y } else { b.2 },
        if y > b.3 { y } else { b.3 },
    )
}

/// The box `(left, right, bottom, top)` of the endpoints of the first `n` lines that touch
/// sector `s`, grown from the empty box.
pub open spec fn sector_bounds(lines: Seq<LineDef>, sides: Seq<SideDef>, s: int, n: int) -> (int, int, int, int)
    decreases n,
{
    if n <= 0 {
        (2147418112int, -2147483648int, 2147418112int, -2147483648int)
    } else {
        let b = sector_bounds(lines, sides, s, n - 1);
        let l = lines[n - 1];
        if line_touches(l, sides, s) {
            grow_box(grow_box(b, l.v1.x@ as int, l.v1.y@ as int), l.v2.x@ as int, l.v2.y@ as int)
        } else {
            b
        }
    }
}

/// What grouping the lines derives for a sector with line box `b`: its sound origin at the
/// box centre, and its box in blockmap blocks, widened by the largest thing radius and
/// kept within the blockmap.
pub open spec fn sector_derived(sector: Sector, b: (int, int, int, int), blockmap: &Blockmap) -> bool {
    let ox = blockmap.origin_x@ as int;
    let oy = blockmap.origin_y@ as int;
    let w = blockmap.width@ as int / 65536;
    let h = blockmap.height@ as int / 65536;
    let top = (wrap_i32(wrap_i32(b.3 - oy) + 2097152) >> 23u32) as int;
    let bottom = (wrap_i32(wrap_i32(b.2 - oy) - 2097152) >> 23u32) as int;
    let right = (wrap_i32(wrap_i32(b.1 - ox) + 2097152) >> 23u32) as int;
    let left = (wrap_i32(wrap_i32(b.0 - ox) - 2097152) >> 23u32) as int;
    &&& sector.soundorg.x@ == real_div_spec(wrap_i32(b.1 + b.0), 131072)
    &&& sector.soundorg.y@ == real_div_spec(wrap_i32(b.3 + b.2), 131072)
    &&& sector.soundorg.z@ == 0
    &&& sector.blockbox.top_bits() == (if top >= h { h - 1 } else { top })
    &&& sector.blockbox.bottom_bits() == (if bottom < 0 { 0 } else { bottom })
    &&& sector.blockbox.right_bits() == (if right >= w { w - 1 } else { right })
    &&& sector.blockbox.left_bits() == (if left < 0 { 0 } else { left })
}

/// `F_SKY1`
pub open spec fn sky_flat_name() -> Seq<u8> {
    seq![70u8, 95u8, 83u8, 75u8, 89u8, 49u8]
}

/// The sky texture of map `map`: `SKY1` up to map 11, `SKY2` up to map 20, else `SKY3`.
pub open spec fn sky_texture_name(map: int) -> Seq<u8> {
    seq![83u8, 75u8, 89u8, if map <= 11 { 49u8 } else if map <= 20 { 50u8 } else { 51u8 }]
}

/// Seg record `k` resolves, read against the raw line-def and side-def lumps.
pub open spec fn seg_record_ok_raw(d5: Seq<u8>, k: int, nv: int, d2: Seq<u8>, d3: Seq<u8>, nsec: int) -> bool {
    let at = 12 * k;
    let l = le_u16(d5, at + 6);
    let side = le_i16(d5, at + 8);
    let nsides = d3.len() as int / 30;
    let front = le_u16(d2, 14 * l + 10);
    let back_raw = le_u16(d2, 14 * l + 12);
    let this_side: Option<int> = if side == 0 { Some(front) } else if back_raw == 0xffff { None } else { Some(back_raw) };
    let other_side: Option<int> = if side == 0 { if back_raw == 0xffff { None } else { Some(back_raw) } } else { Some(front) };
    &&& le_u16(d5, at) < nv
    &&& le_u16(d5, at + 2) < nv
    &&& l < d2.len() / 14
    &&& (side == 0 || side == 1)
    &&& this_side matches Some(t) && t < nsides && le_u16(d3, 30 * t + 28) < nsec
    &&& ((le_i16(d2, 14 * l + 4) as i16) & FLAG_TWOSIDED) != 0 ==> (other_side matches Some(o) ==> o < nsides
        && le_u16(d3, 30 * o + 28) < nsec)
}

/// Map `map` at marker lump `m` loads: the ten lumps after the marker exist, the sky flat
/// and texture exist, the blockmap has its header, every flat and texture name resolves,
/// every reference is in range, there are sub-sectors, and the nodes form a tree whose
/// children come before their parents (at most 0x8000 nodes).
pub open spec fn map_loadable(lumps: &LumpStore, textures: &TextureData, flats: &FlatData, map: int, m: int) -> bool {
    let d2 = lumps.lump_data(m + 2);
    let d3 = lumps.lump_data(m + 3);
    let d4 = lumps.lump_data(m + 4);
    let d5 = lumps.lump_data(m + 5);
    let d6 = lumps.lump_data(m + 6);
    let d7 = lumps.lump_data(m + 7);
    let d8 = lumps.lump_data(m + 8);
    let nsec = d8.len() as int / 26;
    let nsides = d3.len() as int / 30;
    let nsub = d6.len() as int / 4;
    let nv = d4.len() as int / 4;
    let nsegs = d5.len() as int / 12;
    &&& m + 10 < lumps.lump_count()
    &&& flat_known(flats, lumps, sky_flat_name())
    &&& exists|i: int| 0 <= i < textures.textures@.len() && #[trigger] textures.textures@[i].name@ == sky_texture_name(map)
    &&& lumps.lump_data(m + 10).len() >= 8
    &&& forall|k: int| 0 <= k < nsec ==> #[trigger] sector_record_ok(flats, lumps, d8, k)
    &&& forall|k: int| 0 <= k < nsides ==> #[trigger] side_record_ok(textures, d3, k)
    &&& linedef_vertices_ok(d2, nv)
    &&& forall|k: int| 0 <= k < nsides ==> #[trigger] le_u16(d3, 30 * k + 28) < nsec
    &&& forall|l: int| 0 <= l < d2.len() / 14 ==> #[trigger] le_u16(d2, 14 * l + 10) < nsides
        && (le_u16(d2, 14 * l + 12) != 0xffff ==> le_u16(d2, 14 * l + 12) < nsides)
    &&& d2.len() / 14 < 0x4000_0000
    &&& forall|k: int| 0 <= k < nsegs ==> #[trigger] seg_record_ok_raw(d5, k, nv, d2, d3, nsec)
    &&& forall|k: int| 0 <= k < nsub ==> #[trigger] subsector_record_ok(d6, k, nsegs)
    &&& nsub > 0
    &&& d7.len() / 28 <= 0x8000
    &&& nodes_raw_ok(d7, nsub)
}

/// Both children of every node record are sub-sectors or earlier nodes.
pub open spec fn nodes_raw_ok(d7: Seq<u8>, nsub: int) -> bool {
    forall|i: int| 0 <= i < d7.len() / 28 ==> #[trigger] node_record_ok(d7, i, nsub)
}

/// Both children of node record `i` are sub-sectors or earlier nodes.
pub open spec fn node_record_ok(d7: Seq<u8>, i: int, nsub: int) -> bool {
    child_ok(le_u16(d7, 28 * i + 24) as usize, i, nsub) && child_ok(le_u16(d7, 28 * i + 26) as usize, i, nsub)
}

/// A child reference of node `i` names a sub-sector, or a node stored before `i`.
pub open spec fn child_ok(child: usize, i: int, n_subsectors: int) -> bool {
    if child >= NF_SUBSECTOR {
        child < 0x10000 && child - NF_SUBSECTOR < n_subsectors
    } else {
        child < i
    }
}

/// A loaded level: its geometry, its BSP and what grouping the lines derived.
pub struct Level {
    pub level_start_tic: i32,
    pub sky_texture: TextureNumber,
    pub blockmap: Blockmap,
    pub vertices: Vec<Point2D>,
    pub sectors: Vec<Sector>,
    pub side_defs: Vec<SideDef>,
    pub line_defs: Vec<LineDef>,
    pub sub_sectors: Vec<SubSector>,
    pub nodes: Vec<Node>,
    pub segs: Vec<Seg>,
    pub sky_flat_number: FlatNumber,
}

impl Level {
    /// Every reference between the level's entities resolves, and the BSP is a tree
    /// whose children are stored before their parents.
    pub open spec fn wf(&self) -> bool {
        &&& self.sub_sectors@.len() > 0
        &&& self.nodes@.len() <= NF_SUBSECTOR
        &&& forall|i: int|
            0 <= i < self.side_defs@.len() ==> (#[trigger] self.side_defs@[i]).sector_index
                < self.sectors@.len()
        &&& forall|i: int|
            0 <= i < self.line_defs@.len() ==> (#[trigger] self.line_defs@[i]).front_side_index
                < self.side_defs@.len() && (self.line_defs@[i].back_side_index matches Some(b) ==> b
                < self.side_defs@.len())
        &&& forall|i: int|
            0 <= i < self.segs@.len() ==> seg_refs_ok(
                #[trigger] self.segs@[i],
                self.vertices@.len() as int,
                self.line_defs@.len() as int,
                self.side_defs@.len() as int,
                self.sectors@.len() as int,
            )
        &&& forall|i: int|
            0 <= i < self.sub_sectors@.len() ==> (#[trigger] self.sub_sectors@[i]).first_seg_index
                + self.sub_sectors@[i].num_segs <= self.segs@.len()
                && self.sub_sectors@[i].sector_index < self.sectors@.len()
        &&& forall|i: int|
            0 <= i < self.nodes@.len() ==> child_ok(
                (#[trigger] self.nodes@[i]).children[0],
                i,
                self.sub_sectors@.len() as int,
            ) && child_ok(self.nodes@[i].children[1], i, self.sub_sectors@.len() as int)
    }

    pub fn nodes(&self) -> (r: &Vec<Node>)
        ensures
            r == &self.nodes,
    {
        &self.nodes
    }

    pub fn sub_sectors(&self) -> (r: &Vec<SubSector>)
        ensures
            r == &self.sub_sectors,
    {
        &self.sub_sectors
    }

    pub fn sectors(&self) -> (r: &Vec<Sector>)
        ensures
            r == &self.sectors,
    {
        &self.sectors
    }

    pub fn segs(&self) -> (r: &Vec<Seg>)
        ensures
            r == &self.segs,
    {
        &self.segs
    }

    pub fn vertices(&self) -> (r: &Vec<Point2D>)
        ensures
            r == &self.vertices,
    {
        &self.vertices
    }

    pub fn side_defs(&self) -> (r: &Vec<SideDef>)
        ensures
            r == &self.side_defs,
    {
        &self.side_defs
    }

    pub fn line_defs(&self) -> (r: &Vec<LineDef>)
        ensures
            r == &self.line_defs,
    {
        &self.line_defs
    }

    pub fn sky_flat_number(&self) -> (r: FlatNumber)
        ensures
            r == self.sky_flat_number,
    {
        self.sky_flat_number
    }
}

/// The name `MAPnn` of map `map`, as bytes.
pub open spec fn map_name(map: int) -> Seq<u8> {
    seq![77u8, 65u8, 80u8, (48 + map / 10) as u8, (48 + map % 10) as u8]
}


/// Counts the lines around each sector, checks the count by a second pass, and sets each
/// sector's bounding box centre as its sound origin and its box in blockmap blocks.
pub fn group_lines(sectors: &mut Vec<Sector>, lines: &Vec<LineDef>, sides: &Vec<SideDef>, blockmap: &Blockmap) -> (r: Result<(), LevelError>)
    requires
        lines@.len() < 0x4000_0000,
        forall|i: int| 0 <= i < sides@.len() ==> (#[trigger] sides@[i]).sector_index < old(sectors)@.len(),
        forall|i: int|
            0 <= i < lines@.len() ==> (#[trigger] lines@[i]).front_side_index < sides@.len() && (
            lines@[i].back_side_index matches Some(b) ==> b < sides@.len()),
        forall|s: int| 0 <= s < old(sectors)@.len() ==> (#[trigger] old(sectors)@[s]).line_count == 0,
    ensures
        r is Ok,
        final(sectors)@.len() == old(sectors)@.len(),
        forall|s: int|
            0 <= s < final(sectors)@.len() ==> (#[trigger] final(sectors)@[s]).line_count
                == touch_count(lines@, sides@, s, lines@.len() as int) && final(sectors)@[s].floor_height
                == old(sectors)@[s].floor_height && final(sectors)@[s].ceiling_height == old(
                sectors,
            )@[s].ceiling_height && final(sectors)@[s].floor_pic == old(sectors)@[s].floor_pic
                && final(sectors)@[s].ceiling_pic == old(sectors)@[s].ceiling_pic
                && final(sectors)@[s].light_level == old(sectors)@[s].light_level,
        forall|s: int|
            0 <= s < final(sectors)@.len() ==> sector_derived(#[trigger] final(sectors)@[s], sector_bounds(lines@, sides@, s, lines@.len() as int), blockmap),
{
    let n_lines = lines.len();
    let n_sectors = sectors.len();
    let mut i: usize = 0;
    while i < n_lines
        invariant
            i <= n_lines,
            n_lines == lines@.len(),
            n_lines < 0x4000_0000,
            n_sectors == sectors@.len(),
            sectors@.len() == old(sectors)@.len(),
            forall|k: int| 0 <= k < sides@.len() ==> (#[trigger] sides@[k]).sector_index < n_sectors,
            forall|k: int|
                0 <= k < lines@.len() ==> (#[trigger] lines@[k]).front_side_index < sides@.len() && (
                lines@[k].back_side_index matches Some(b) ==> b < sides@.len()),
            forall|s: int|
                0 <= s < n_sectors ==> (#[trigger] sectors@[s]).line_count == touch_count(
                    lines@,
                    sides@,
                    s,
                    i as int,
                ) && sectors@[s].floor_height == old(sectors)@[s].floor_height
                    && sectors@[s].ceiling_height == old(sectors)@[s].ceiling_height
                    && sectors@[s].floor_pic == old(sectors)@[s].floor_pic && sectors@[s].ceiling_pic
                    == old(sectors)@[s].ceiling_pic && sectors@[s].light_level == old(
                    sectors,
                )@[s].light_level,
            forall|s: int, m: int| 0 <= m <= i ==> 0 <= #[trigger] touch_count(lines@, sides@, s, m) <= m,
        decreases n_lines - i,
    {
        let line = &lines[i];
        let front = sides[line.front_side_index].sector_index;
        let ghost before = sectors@;
        proof {
            assert forall|s: int, m: int| 0 <= m <= i + 1 implies 0 <= #[trigger] touch_count(lines@, sides@, s, m) <= m by {
                if m == i + 1 {
                    assert(touch_count(lines@, sides@, s, m - 1) <= m - 1);
                }
            }
        }
        let mut sector = sectors[front];
        sector.line_count = sector.line_count + 1;
        sectors.set(front, sector);
        match line.back_side_index {
            Some(b) => {
                let back = sides[b].sector_index;
                if back != front {
                    let mut sector = sectors[back];
                    sector.line_count = sector.line_count + 1;
                    sectors.set(back, sector);
                }
            },
            None => {},
        }
        proof {
            assert forall|s: int| 0 <= s < n_sectors implies (#[trigger] sectors@[s]).line_count
                == touch_count(lines@, sides@, s, i + 1) by {
                assert(touch_count(lines@, sides@, s, i + 1) == touch_count(lines@, sides@, s, i as int) + if line_touches(lines@[i as int], sides@, s) { 1int } else { 0 });
            }
        }
        i = i + 1;
    }
    let mut s: usize = 0;
    while s < n_sectors
        invariant
            s <= n_sectors,
            n_lines == lines@.len(),
            n_lines < 0x4000_0000,
            n_sectors == sectors@.len(),
            sectors@.len() == old(sectors)@.len(),
            forall|k: int| 0 <= k < sides@.len() ==> (#[trigger] sides@[k]).sector_index < n_sectors,
            forall|k: int|
                0 <= k < lines@.len() ==> (#[trigger] lines@[k]).front_side_index < sides@.len() && (
                lines@[k].back_side_index matches Some(b) ==> b < sides@.len()),
            forall|q: int|
                0 <= q < n_sectors ==> (#[trigger] sectors@[q]).line_count == touch_count(
                    lines@,
                    sides@,
                    q,
                    n_lines as int,
                ) && sectors@[q].floor_height == old(sectors)@[q].floor_height
                    && sectors@[q].ceiling_height == old(sectors)@[q].ceiling_height
                    && sectors@[q].floor_pic == old(sectors)@[q].floor_pic && sectors@[q].ceiling_pic
                    == old(sectors)@[q].ceiling_pic && sectors@[q].light_level == old(
                    sectors,
                )@[q].light_level,
            forall|q: int| 0 <= q < s ==> sector_derived(#[trigger] sectors@[q], sector_bounds(lines@, sides@, q, n_lines as int), blockmap),
        decreases n_sectors - s,
    {
        let mut bounds = BoundingBox::new_empty();
        let mut count: u32 = 0;
        let mut k: usize = 0;
        while k < n_lines
            invariant
                k <= n_lines,
                n_lines == lines@.len(),
                n_lines < 0x4000_0000,
                s < n_sectors,
                forall|j: int|
                    0 <= j < lines@.len() ==> (#[trigger] lines@[j]).front_side_index < sides@.len() && (
                    lines@[j].back_side_index matches Some(b) ==> b < sides@.len()),
                count == touch_count(lines@, sides@, s as int, k as int),
                (bounds.left_bits() as int, bounds.right_bits() as int, bounds.bottom_bits() as int, bounds.top_bits() as int)
                    == sector_bounds(lines@, sides@, s as int, k as int),
                forall|m: int| 0 <= m <= k ==> 0 <= #[trigger] touch_count(lines@, sides@, s as int, m) <= m,
            decreases n_lines - k,
        {
            proof {
                assert forall|m: int| 0 <= m <= k + 1 implies 0 <= #[trigger] touch_count(lines@, sides@, s as int, m) <= m by {
                    if m == k + 1 {
                        assert(touch_count(lines@, sides@, s as int, m - 1) <= m - 1);
                    }
                }
            }
            let line = &lines[k];
            if line.is_adjacent_to_sector_index(s, sides) {
                count = count + 1;
                bounds.expand(&line.v1);
                bounds.expand(&line.v2);
            }
            k = k + 1;
        }
        let mut sector = sectors[s];
        if count != sector.line_count {
            return Err(LevelError::Miscounted);
        }
        let two = RealNumber::new(2);
        sector.soundorg = Vector3::new(
            bounds.right().add(bounds.left()).div(two),
            bounds.top().add(bounds.bottom()).div(two),
            RealNumber::new(0),
        );
        let radius = RealNumber::new(MAX_RADIUS);
        let width = blockmap.width().to_int();
        let height = blockmap.height().to_int();
        let block_top = bounds.top().sub(blockmap.origin_y()).add(radius).shr(MAP_BLOCK_SHIFT).to_bits();
        let block_top = if block_top >= height { height - 1 } else { block_top };
        let block_bottom = bounds.bottom().sub(blockmap.origin_y()).sub(radius).shr(MAP_BLOCK_SHIFT).to_bits();
        let block_bottom = if block_bottom < 0 { 0 } else { block_bottom };
        let block_right = bounds.right().sub(blockmap.origin_x()).add(radius).shr(MAP_BLOCK_SHIFT).to_bits();
        let block_right = if block_right >= width { width - 1 } else { block_right };
        let block_left = bounds.left().sub(blockmap.origin_x()).sub(radius).shr(MAP_BLOCK_SHIFT).to_bits();
        let block_left = if block_left < 0 { 0 } else { block_left };
        sector.blockbox = BoundingBox::new(
            RealNumber::new_from_bits(block_left),
            RealNumber::new_from_bits(block_right),
            RealNumber::new_from_bits(block_top),
            RealNumber::new_from_bits(block_bottom),
        );
        let ghost before = sectors@;
        sectors.set(s, sector);
        proof {
            assert forall|q: int| 0 <= q < s + 1 implies sector_derived(#[trigger] sectors@[q], sector_bounds(lines@, sides@, q, n_lines as int), blockmap) by {
                if q < s {
                    assert(sectors@[q] == before[q]);
                }
            }
        }
        s = s + 1;
    }
    Ok(())
}


/// Whether every side faces a sector and every line's sides exist.
fn sides_and_lines_ok(sides: &Vec<SideDef>, lines: &Vec<LineDef>, n_sectors: usize) -> (r: bool)
    ensures
        r == ((forall|i: int| 0 <= i < sides@.len() ==> (#[trigger] sides@[i]).sector_index < n_sectors)
            && (forall|i: int|
            0 <= i < lines@.len() ==> (#[trigger] lines@[i]).front_side_index < sides@.len() && (
            lines@[i].back_side_index matches Some(b) ==> b < sides@.len()))),
{
    let mut i: usize = 0;
    while i < sides.len()
        invariant
            i <= sides@.len(),
            forall|k: int| 0 <= k < i ==> (#[trigger] sides@[k]).sector_index < n_sectors,
        decreases sides@.len() - i,
    {
        if sides[i].sector_index >= n_sectors {
            return false;
        }
        i = i + 1;
    }
    let mut i: usize = 0;
    while i < lines.len()
        invariant
            i <= lines@.len(),
            forall|k: int|
                0 <= k < i ==> (#[trigger] lines@[k]).front_side_index < sides@.len() && (
                lines@[k].back_side_index matches Some(b) ==> b < sides@.len()),
        decreases lines@.len() - i,
    {
        if lines[i].front_side_index >= sides.len() {
            return false;
        }
        match lines[i].back_side_index {
            Some(b) => {
                if b >= sides.len() {
                    return false;
                }
            },
            None => {},
        }
        i = i + 1;
    }
    true
}

/// Whether every child of every node is a sub-sector or an earlier node.
fn nodes_ok(nodes: &Vec<Node>, n_subsectors: usize) -> (r: bool)
    ensures
        r == forall|i: int|
            0 <= i < nodes@.len() ==> child_ok((#[trigger] nodes@[i]).children[0], i, n_subsectors as int)
                && child_ok(nodes@[i].children[1], i, n_subsectors as int),
{
    let mut i: usize = 0;
    while i < nodes.len()
        invariant
            i <= nodes@.len(),
            forall|k: int|
                0 <= k < i ==> child_ok((#[trigger] nodes@[k]).children[0], k, n_subsectors as int)
                    && child_ok(nodes@[k].children[1], k, n_subsectors as int),
        decreases nodes@.len() - i,
    {
        let mut c: usize = 0;
        while c < 2
            invariant
                c <= 2,
                i < nodes@.len(),
                forall|j: int| 0 <= j < c ==> child_ok(nodes@[i as int].children[j], i as int, n_subsectors as int),
            decreases 2 - c,
        {
            let child = nodes[i].children[c];
            let ok = if child >= NF_SUBSECTOR {
                child < 0x10000 && child - NF_SUBSECTOR < n_subsectors
            } else {
                child < i
            };
            if !ok {
                return false;
            }
            c = c + 1;
        }
        i = i + 1;
    }
    true
}

impl Level {
    /// Loads map `map` (the lumps after the `MAPnn` marker), resolving textures and flats,
    /// checking every reference and grouping the lines around sectors. Maps are numbered
    /// without episodes, so `episode` does not choose the map.
    pub fn load(lumps: &LumpStore, textures: &TextureData, flats: &FlatData, game_tics: i32, episode: i32, map: i32) -> (r: Result<Level, LevelError>)
        requires
            lumps.wf(),
            lumps.lump_count() < usize::MAX - 16,
        ensures
            r is Ok <==> 0 <= map <= 99 && exists|m: int| #[trigger] lumps.finds(map_name(map as int), m) && map_loadable(
                lumps,
                textures,
                flats,
                map as int,
                m,
            ),
            r matches Ok(level) ==> level.wf(),
            r matches Ok(level) ==> 0 <= map <= 99 && exists|m: int| {
                &&& #[trigger] lumps.finds(map_name(map as int), m)
                &&& m + 10 < lumps.lump_count()
                &&& level.vertices@.len() == lumps.lump_data(m + 4).len() / 4
                &&& level.line_defs@.len() == lumps.lump_data(m + 2).len() / 14
                &&& level.side_defs@.len() == lumps.lump_data(m + 3).len() / 30
                &&& level.sectors@.len() == lumps.lump_data(m + 8).len() / 26
                &&& level.segs@.len() == lumps.lump_data(m + 5).len() / 12
                &&& level.sub_sectors@.len() == lumps.lump_data(m + 6).len() / 4
                &&& level.nodes@.len() == lumps.lump_data(m + 7).len() / 28
            },
            r matches Ok(level) ==> forall|s: int|
                0 <= s < level.sectors@.len() ==> (#[trigger] level.sectors@[s]).line_count == touch_count(
                    level.line_defs@,
                    level.side_defs@,
                    s,
                    level.line_defs@.len() as int,
                ) && sector_derived(
                    level.sectors@[s],
                    sector_bounds(level.line_defs@, level.side_defs@, s, level.line_defs@.len() as int),
                    &level.blockmap,
                ),
            !(0 <= map <= 99) ==> r == Err::<Level, LevelError>(LevelError::BadMapNumber),
            0 <= map <= 99 && !lumps.has_name(map_name(map as int)) ==> r == Err::<Level, LevelError>(LevelError::MissingLump),
    {
        if map < 0 || map > 99 {
            return Err(LevelError::BadMapNumber);
        }
        let map_name_bytes: Vec<u8> = vec![77u8, 65u8, 80u8, (48 + map / 10) as u8, (48 + map % 10) as u8];
        assert(map_name_bytes@ =~= map_name(map as int));
        let marker = match lumps.find_lump(map_name_bytes.as_slice()) {
            Some(n) => n,
            None => return Err(LevelError::MissingLump),
        };
        let ghost m = marker.0 as int;
        proof {
            crate::graphics::flats::lemma_finds_unique(lumps, map_name(map as int), m);
        }
        if marker.index() + 10 >= lumps.len() {
            return Err(LevelError::MissingLump);
        }
        let sky_flat_bytes: Vec<u8> = vec![70u8, 95u8, 83u8, 75u8, 89u8, 49u8];
        assert(sky_flat_bytes@ == sky_flat_name());
        let sky_flat_number = match flats.flat_number_of(sky_flat_bytes.as_slice(), lumps) {
            Some(f) => f,
            None => return Err(LevelError::MissingFlat),
        };
        let sky_name: Vec<u8> = if map <= 11 {
            vec![83u8, 75u8, 89u8, 49u8]
        } else if map <= 20 {
            vec![83u8, 75u8, 89u8, 50u8]
        } else {
            vec![83u8, 75u8, 89u8, 51u8]
        };
        assert(sky_name@ == sky_texture_name(map as int));
        let sky_texture = match textures.get_texture_number(sky_name.as_slice()) {
            Some(t) => t,
            None => return Err(LevelError::MissingTexture),
        };
        let blockmap = match blockmap::load(lumps.get_lump(By::Number(marker.offset(10)))) {
            Some(b) => b,
            None => return Err(LevelError::MissingLump),
        };
        let d2 = lumps.get_lump(By::Number(marker.offset(2)));
        let d3 = lumps.get_lump(By::Number(marker.offset(3)));
        let d5 = lumps.get_lump(By::Number(marker.offset(5)));
        let vertices = vertices::load(lumps.get_lump(By::Number(marker.offset(4))));
        let mut sectors = match sectors::load(lumps.get_lump(By::Number(marker.offset(8))), flats, lumps) {
            Some(s) => s,
            None => return Err(LevelError::MissingFlat),
        };
        let side_defs = match sidedefs::load(d3, textures) {
            Some(s) => s,
            None => return Err(LevelError::MissingTexture),
        };
        let line_defs = match linedefs::load(d2, &vertices) {
            Some(l) => l,
            None => return Err(LevelError::BadReference),
        };
        let ghost nsec = sectors@.len() as int;
        let ghost nsides = side_defs@.len() as int;
        assert(forall|k: int| 0 <= k < nsides ==> (#[trigger] side_defs@[k]).sector_index == le_u16(d3@, 30 * k + 28));
        assert(forall|l: int| 0 <= l < line_defs@.len() ==> (#[trigger] line_defs@[l]).front_side_index == le_u16(d2@, 14 * l + 10));
        if !sides_and_lines_ok(&side_defs, &line_defs, sectors.len()) || line_defs.len() >= 0x4000_0000 {
            proof {
                if !(forall|k: int| 0 <= k < nsides ==> (#[trigger] side_defs@[k]).sector_index < nsec) {
                    let k = choose|k: int| 0 <= k < nsides && !((#[trigger] side_defs@[k]).sector_index < nsec);
                    assert(!(le_u16(d3@, 30 * k + 28) < nsec));
                } else if line_defs.len() < 0x4000_0000 {
                    let l = choose|l: int| 0 <= l < line_defs@.len() && !((#[trigger] line_defs@[l]).front_side_index < nsides && (
                        line_defs@[l].back_side_index matches Some(b) ==> b < nsides));
                    assert(!(le_u16(d2@, 14 * l + 10) < nsides && (le_u16(d2@, 14 * l + 12) != 0xffff ==> le_u16(d2@, 14 * l + 12) < nsides)));
                }
            }
            return Err(LevelError::BadReference);
        }
        proof {
            assert forall|k: int| 0 <= k < nsides implies #[trigger] le_u16(d3@, 30 * k + 28) < nsec by {
                assert(side_defs@[k].sector_index == le_u16(d3@, 30 * k + 28));
            }
            assert forall|l: int| 0 <= l < d2@.len() / 14 implies #[trigger] le_u16(d2@, 14 * l + 10) < nsides
                && (le_u16(d2@, 14 * l + 12) != 0xffff ==> le_u16(d2@, 14 * l + 12) < nsides) by {
                assert(line_defs@[l].front_side_index == le_u16(d2@, 14 * l + 10));
            }
        }
        proof {
            assert forall|k: int| 0 <= k < d5@.len() / 12 implies #[trigger] seg_record_ok(d5@, k, vertices@.len() as int, line_defs@, side_defs@, nsec)
                == seg_record_ok_raw(d5@, k, vertices@.len() as int, d2@, d3@, nsec) by {
                let l = le_u16(d5@, 12 * k + 6);
                if 0 <= l < line_defs@.len() {
                    let line = line_defs@[l];
                    assert(line.front_side_index == le_u16(d2@, 14 * l + 10));
                    if let Some(b) = line.back_side_index {
                        assert(side_defs@[b as int].sector_index == le_u16(d3@, 30 * b + 28));
                    }
                    assert(side_defs@[line.front_side_index as int].sector_index == le_u16(d3@, 30 * line.front_side_index + 28));
                }
            }
        }
        let segs = match segs::load(d5, vertices.len(), &line_defs, &side_defs, sectors.len()) {
            Some(s) => s,
            None => return Err(LevelError::BadReference),
        };
        proof {
            assert forall|k: int| 0 <= k < d5@.len() / 12 implies #[trigger] seg_record_ok_raw(d5@, k, vertices@.len() as int, d2@, d3@, nsec) by {
                assert(seg_record_ok(d5@, k, vertices@.len() as int, line_defs@, side_defs@, nsec));
            }
        }
        let sub_sectors = match sub_sectors::load(lumps.get_lump(By::Number(marker.offset(6))), &segs) {
            Some(s) => s,
            None => return Err(LevelError::BadReference),
        };
        let d7 = lumps.get_lump(By::Number(marker.offset(7)));
        let nodes = nodes::load(d7);
        proof {
            let nsub = sub_sectors@.len() as int;
            assert forall|i: int| 0 <= i < nodes@.len() implies (child_ok((#[trigger] nodes@[i]).children[0], i, nsub)
                && child_ok(nodes@[i].children[1], i, nsub)) == node_record_ok(d7@, i, nsub) by {
                assert(nodes@[i].children[0] == le_u16(d7@, 28 * i + 24));
                assert(nodes@[i].children[1] == le_u16(d7@, 28 * i + 26));
            }
        }
        if sub_sectors.len() == 0 || nodes.len() > NF_SUBSECTOR || !nodes_ok(&nodes, sub_sectors.len()) {
            return Err(LevelError::BadReference);
        }
        let ghost nodes_seq = nodes@;
        match group_lines(&mut sectors, &line_defs, &side_defs, &blockmap) {
            Ok(()) => {},
            Err(e) => return Err(e),
        }
        let level = Level {
            level_start_tic: game_tics,
            sky_texture,
            blockmap,
            vertices,
            sectors,
            side_defs,
            line_defs,
            sub_sectors,
            nodes,
            segs,
            sky_flat_number,
        };
        assert(lumps.finds(map_name(map as int), marker.0 as int));
        proof {
            let d7s = lumps.lump_data(m + 7);
            let nsub = lumps.lump_data(m + 6).len() as int / 4;
            assert(d7@ == d7s);
            assert(level.sub_sectors@.len() == nsub);
            assert forall|i: int| 0 <= i < d7s.len() / 28 implies #[trigger] node_record_ok(d7s, i, nsub) by {
                assert(nodes_seq.len() == d7s.len() / 28);
                let nd = nodes_seq[i];
                assert(child_ok(nd.children[0], i, nsub) && child_ok(nd.children[1], i, nsub));
                assert(nd.children[0] == le_u16(d7s, 28 * i + 24));
                assert(nd.children[1] == le_u16(d7s, 28 * i + 26));
            }
            assert(sky_name@[0] != 45u8);
        }
        assert(nodes_raw_ok(lumps.lump_data(m + 7), lumps.lump_data(m + 6).len() as int / 4));
        assert(map_loadable(lumps, textures, flats, map as int, m));
        Ok(level)
    }
}

} // verus!
