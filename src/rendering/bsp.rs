pub mod draw_seg;
pub mod planes;
pub mod solid_seg;

use vstd::prelude::*;
use crate::graphics::textures::{TextureData, TextureNumber};
use crate::level::Level;
use crate::level::bounding_box::BoundingBox;
use crate::level::nodes::{Node, NF_SUBSECTOR};
use crate::level::sectors::Sector;
use crate::map_object::Player;
use crate::rendering::bsp::draw_seg::{
    DrawSeg, DrawSegs, MAX_DRAW_SEGS, SILHOUETTE_BOTH, SILHOUETTE_BOTTOM, SILHOUETTE_NONE, SILHOUETTE_TOP,
};
use crate::rendering::bsp::planes::{check_plane, find_plane_index, Planes, MAX_VISPLANES};
use crate::rendering::bsp::solid_seg::{ClipRange, SolidSegs};
use crate::rendering::types::{Point2D, ANGLE_180};
use crate::rendering::RENDER_WIDTH;
use crate::graphics::flats::FlatNumber;
use crate::graphics::light_table::LightTable;
use crate::rendering::bsp::planes::{VisPlane, EMPTY_COLUMN};
use crate::number::{RealNumber, real_div_spec, real_mul_spec, wrap_i32};
use crate::rendering::tables::{fine_tangent, fine_tangent_spec, FINEANGLES, FINE_TANGENT_LEN};
use crate::rendering::types::{Angle, Point3D, ANGLE_90};
use crate::rendering::ViewWindow;

verus! {

/// Fine angles across the screen.
pub const FIELD_OF_VIEW: usize = 2048;

/// Number of entries of the angle-to-column table: half a turn of fine angles.
pub const VIEW_ANGLES: usize = 4096;

/// Focal length: the view centre over the tangent at the edge of the field of view.
pub open spec fn focal_length_spec(view: ViewWindow) -> i32 {
    real_div_spec(view.centerxfrac@, fine_tangent_spec(3072))
}

/// Column of fine angle `i` before the fence posts are taken out: -1 left of the view,
/// `width + 1` right of it.
pub open spec fn raw_view_angle_to_x(view: ViewWindow, i: int) -> int {
    let t = fine_tangent_spec(i);
    let w = view.width as int;
    if t > 131072 {
        -1
    } else if t < -131072 {
        w + 1
    } else {
        let m = real_mul_spec(t, focal_length_spec(view));
        let v = wrap_i32(wrap_i32(wrap_i32(view.centerxfrac@ - m) + 65536) - 1) as int / 65536;
        if v < -1 {
            -1
        } else if v > w + 1 {
            w + 1
        } else {
            v
        }
    }
}

/// Column of fine angle `i`, with -1 moved to 0 and `width + 1` to `width`.
pub open spec fn view_angle_to_x_spec(view: ViewWindow, i: int) -> int {
    let r = raw_view_angle_to_x(view, i);
    if r == -1 {
        0
    } else if r == view.width + 1 {
        view.width as int
    } else {
        r
    }
}

/// Angle `a` is that of column `c`: the first fine angle whose column is at most `c`
/// (the last one when none is), turned back by 90 degrees.
pub open spec fn angle_of_column(view: ViewWindow, a: Angle, c: int) -> bool {
    exists|i: int|
        0 <= i < VIEW_ANGLES && a@ == vstd::wrapping::u32_specs::wrapping_sub((i * 524288) as u32, ANGLE_90)
            && (raw_view_angle_to_x(view, i) <= c || i == VIEW_ANGLES - 1) && forall|j: int|
            0 <= j < i ==> raw_view_angle_to_x(view, j) > c
}

/// The tables that map view angles to screen columns and back.
pub struct BspRenderer {
    pub view_angle_to_x: Vec<i32>,
    pub x_to_view_angle: Vec<Angle>,
    pub clip_angle: Angle,
    pub view_width: usize,
}

impl BspRenderer {
    /// The tables are for a view of this width.
    pub open spec fn wf(&self, view: ViewWindow) -> bool {
        &&& self.view_width == view.width
        &&& self.tables_ok()
    }

    /// One column in `0..=view_width` per fine angle of half a turn, and one angle per
    /// column boundary.
    pub open spec fn tables_ok(&self) -> bool {
        &&& self.view_angle_to_x@.len() == VIEW_ANGLES
        &&& forall|i: int| 0 <= i < VIEW_ANGLES ==> 0 <= #[trigger] self.view_angle_to_x@[i] <= self.view_width
        &&& self.x_to_view_angle@.len() == self.view_width + 1
    }

    /// Builds the angle-to-column table from the tangent table and its inverse: the
    /// angle of column `x` is that of the first fine angle whose column is at most `x`,
    /// turned back by 90 degrees.
    pub fn new(view: &ViewWindow) -> (r: Self)
        requires
            view.wf(),
        ensures
            r.wf(*view),
            forall|i: int| 0 <= i < VIEW_ANGLES ==> #[trigger] r.view_angle_to_x@[i] == view_angle_to_x_spec(*view, i),
            forall|x: int|
                0 <= x <= view.width ==> angle_of_column(*view, #[trigger] r.x_to_view_angle@[x], x),
            r.clip_angle == r.x_to_view_angle@[0],
    {
        let w = view.width as i32;
        let focal_length = view.centerxfrac.div(RealNumber::new_from_bits(fine_tangent(FINEANGLES / 4 + FIELD_OF_VIEW / 2)));
        let two = RealNumber::new(2);
        let minus_two = RealNumber::new(-2);
        let one = RealNumber::new(1);
        let ulp = RealNumber::new_from_bits(1);
        let mut raw: Vec<i32> = Vec::new();
        let mut i: usize = 0;
        while i < VIEW_ANGLES
            invariant
                i <= VIEW_ANGLES,
                view.wf(),
                w == view.width,
                focal_length@ == focal_length_spec(*view),
                two@ == 131072,
                minus_two@ == -131072,
                one@ == 65536,
                ulp@ == 1,
                raw@.len() == i,
                forall|k: int| 0 <= k < i ==> #[trigger] raw@[k] == raw_view_angle_to_x(*view, k),
            decreases VIEW_ANGLES - i,
        {
            let t = RealNumber::new_from_bits(fine_tangent(i));
            let x = if t.gt(two) {
                -1
            } else if t.lt(minus_two) {
                w + 1
            } else {
                let v = view.centerxfrac.sub(t.mul(focal_length)).add(one).sub(ulp).to_int();
                if v < -1 {
                    -1
                } else if v > w + 1 {
                    w + 1
                } else {
                    v
                }
            };
            raw.push(x);
            i = i + 1;
        }
        let mut x_to_view_angle: Vec<Angle> = Vec::new();
        let mut x: usize = 0;
        while x <= view.width
            invariant
                x <= view.width + 1,
                view.wf(),
                raw@.len() == VIEW_ANGLES,
                forall|k: int| 0 <= k < VIEW_ANGLES ==> #[trigger] raw@[k] == raw_view_angle_to_x(*view, k),
                x_to_view_angle@.len() == x,
                forall|c: int|
                    0 <= c < x ==> angle_of_column(*view, #[trigger] x_to_view_angle@[c], c),
            decreases view.width + 1 - x,
        {
            let mut k: usize = 0;
            while k < VIEW_ANGLES - 1 && raw[k] > x as i32
                invariant
                    k < VIEW_ANGLES,
                    x <= view.width,
                    view.wf(),
                    raw@.len() == VIEW_ANGLES,
                    forall|q: int| 0 <= q < VIEW_ANGLES ==> #[trigger] raw@[q] == raw_view_angle_to_x(*view, q),
                    forall|j: int| 0 <= j < k ==> raw_view_angle_to_x(*view, j) > x,
                decreases VIEW_ANGLES - k,
            {
                k = k + 1;
            }
            let a = Angle::from_fine_shift(k).sub(Angle::angle90());
            let ghost before = x_to_view_angle@;
            x_to_view_angle.push(a);
            proof {
                assert(x_to_view_angle@[x as int] == a);
                assert(((k * 524288) as u32) as int == k * 524288);
                assert(0 <= k < VIEW_ANGLES && a@ == vstd::wrapping::u32_specs::wrapping_sub(
                    (k * 524288) as u32,
                    ANGLE_90,
                ) && (raw_view_angle_to_x(*view, k as int) <= x || k == VIEW_ANGLES - 1));
                assert(forall|j: int| 0 <= j < k ==> raw_view_angle_to_x(*view, j) > x);
                assert(angle_of_column(*view, a, x as int));
                assert forall|c: int| 0 <= c < x + 1 implies angle_of_column(*view, #[trigger] x_to_view_angle@[c], c) by {
                    if c < x {
                        assert(x_to_view_angle@[c] == before[c]);
                    }
                }
            }
            x = x + 1;
        }
        let mut view_angle_to_x: Vec<i32> = Vec::new();
        let mut i: usize = 0;
        while i < VIEW_ANGLES
            invariant
                i <= VIEW_ANGLES,
                view.wf(),
                w == view.width,
                raw@.len() == VIEW_ANGLES,
                forall|k: int| 0 <= k < VIEW_ANGLES ==> #[trigger] raw@[k] == raw_view_angle_to_x(*view, k),
                view_angle_to_x@.len() == i,
                forall|k: int| 0 <= k < i ==> #[trigger] view_angle_to_x@[k] == view_angle_to_x_spec(*view, k),
            decreases VIEW_ANGLES - i,
        {
            let v = raw[i];
            let v = if v == -1 {
                0
            } else if v == w + 1 {
                w
            } else {
                v
            };
            view_angle_to_x.push(v);
            i = i + 1;
        }
        let clip_angle = x_to_view_angle[0];
        BspRenderer { view_angle_to_x, x_to_view_angle, clip_angle, view_width: view.width }
    }
}


/// Side of the partition line `(nx, ny, ndx, ndy)` that the point `(px, py)` is on:
/// 0 in front, 1 behind.
pub open spec fn point_on_side_spec(px: i32, py: i32, nx: i32, ny: i32, ndx: i32, ndy: i32) -> usize {
    if ndx == 0 {
        if px <= nx {
            if ndy > 0 { 1 } else { 0 }
        } else {
            if ndy < 0 { 1 } else { 0 }
        }
    } else if ndy == 0 {
        if py <= ny {
            if ndx < 0 { 1 } else { 0 }
        } else {
            if ndx > 0 { 1 } else { 0 }
        }
    } else {
        let dx = wrap_i32(px - nx);
        let dy = wrap_i32(py - ny);
        if (ndy ^ ndx ^ dx ^ dy) < 0 {
            if (ndy ^ dx) < 0 { 1 } else { 0 }
        } else {
            let left = real_mul_spec(ndy, dx);
            let right = real_mul_spec(dy, ndx);
            if right < left { 0 } else { 1 }
        }
    }
}

/// Which side of a node's partition line a point is on: 0 in front,
/// 1 behind.
pub fn point_on_side(point: &Point3D, node: &Node) -> (r: usize)
    ensures
        r == point_on_side_spec(point.x@, point.y@, node.x@, node.y@, node.dx@, node.dy@),
        r < 2,
{
    let zero = RealNumber::new_from_bits(0);
    if node.dx.is_zero() {
        if point.x.le(node.x) {
            return if node.dy.gt(zero) { 1 } else { 0 };
        } else {
            return if node.dy.lt(zero) { 1 } else { 0 };
        }
    }
    if node.dy.is_zero() {
        if point.y.le(node.y) {
            return if node.dx.lt(zero) { 1 } else { 0 };
        } else {
            return if node.dx.gt(zero) { 1 } else { 0 };
        }
    }
    let dx = point.x.sub(node.x);
    let dy = point.y.sub(node.y);
    if node.dy.bitxor(node.dx).bitxor(dx).bitxor(dy).is_negative() {
        if node.dy.bitxor(dx).is_negative() {
            return 1;
        }
        return 0;
    }
    let left = node.dy.mul(dx);
    let right = dy.mul(node.dx);
    if right.lt(left) {
        return 0;
    }
    1
}

proof fn lemma_xor_sign(a: i32, b: i32)
    ensures
        (a ^ b < 0) == ((a < 0) != (b < 0)),
{
    assert((a ^ b < 0) == ((a < 0) != (b < 0))) by (bit_vector);
}

/// Turning a partition line around (negating its direction) puts every point that is not
/// on it on the other side. This needs the direction in whole map units (as the map
/// stores it), a point off the line, and cross products that fit in 32 bits.
pub proof fn lemma_point_on_side_mirror(px: i32, py: i32, nx: i32, ny: i32, ndx: i32, ndy: i32)
    requires
        ndx != 0 || ndy != 0,
        ndx != i32::MIN,
        ndy != i32::MIN,
        ndx % 65536 == 0,
        ndy % 65536 == 0,
        i32::MIN < px - nx <= i32::MAX,
        i32::MIN < py - ny <= i32::MAX,
        ndx != 0 && ndy != 0 ==> (ndy / 65536) * (px - nx) != (py - ny) * (ndx / 65536),
        ndx != 0 && ndy != 0 ==> i32::MIN < (ndy / 65536) * (px - nx) <= i32::MAX,
        ndx != 0 && ndy != 0 ==> i32::MIN < (py - ny) * (ndx / 65536) <= i32::MAX,
        ndx == 0 ==> px != nx,
        ndy == 0 ==> py != ny,
    ensures
        point_on_side_spec(px, py, nx, ny, (-ndx) as i32, (-ndy) as i32) == 1 - point_on_side_spec(
            px,
            py,
            nx,
            ny,
            ndx,
            ndy,
        ),
{
    if ndx != 0 && ndy != 0 {
        let dx = wrap_i32(px - nx);
        let dy = wrap_i32(py - ny);
        let mdx = (-ndx) as i32;
        let mdy = (-ndy) as i32;
        lemma_xor_sign(ndy, ndx);
        lemma_xor_sign(ndy ^ ndx, dx);
        lemma_xor_sign(ndy ^ ndx ^ dx, dy);
        lemma_xor_sign(mdy, mdx);
        lemma_xor_sign(mdy ^ mdx, dx);
        lemma_xor_sign(mdy ^ mdx ^ dx, dy);
        lemma_xor_sign(ndy, dx);
        lemma_xor_sign(mdy, dx);
        let a = ndy as int / 65536;
        let b = ndx as int / 65536;
        assert(ndy as int == a * 65536);
        assert(ndx as int == b * 65536);
        assert((ndy as int * dx as int) / 65536 == a * dx) by (nonlinear_arith)
            requires
                ndy as int == a * 65536,
        ;
        assert((mdy as int * dx as int) / 65536 == -(a * dx)) by (nonlinear_arith)
            requires
                mdy as int == -(a * 65536),
        ;
        assert((dy as int * ndx as int) / 65536 == dy * b) by (nonlinear_arith)
            requires
                ndx as int == b * 65536,
        ;
        assert((dy as int * mdx as int) / 65536 == -(dy * b)) by (nonlinear_arith)
            requires
                mdx as int == -(b * 65536),
        ;
        assert(dx == px - nx);
        assert(dy == py - ny);
        assert(real_mul_spec(ndy, dx) == a * dx);
        assert(real_mul_spec(dy, ndx) == dy * b);
        assert(real_mul_spec(mdy, dx) == -(a * dx));
        assert(real_mul_spec(dy, mdx) == -(dy * b));
        assert((mdy < 0) == !(ndy < 0));
        assert((mdx < 0) == !(ndx < 0));
    }
}


/// Bits of a wall height fraction below a screen row.
pub const HEIGHT_BITS: u32 = 12;
pub const HEIGHT_UNIT: i32 = 4096;

/// Light levels, and how sector light and wall scale pick a color-map row.
pub const LIGHT_LEVELS: usize = 16;
pub const LIGHT_SEG_SHIFT: u32 = 4;
pub const MAX_LIGHT_SCALE: usize = 48;
pub const LIGHT_SCALE_SHIFT: u32 = 12;

/// One wall column handed to the column drawer: rows `yl..=yh` of column `x`, sampled from
/// column `texture_column` of `texture` with `texture_mid` at the view centre and `iscale`
/// texture rows per screen row, lit by row `light_index` of the light level's scale table.
#[derive(Copy, Clone, Debug)]
pub struct WallColumn {
    pub x: i32,
    pub yl: i32,
    pub yh: i32,
    pub texture: TextureNumber,
    pub texture_column: i32,
    pub texture_mid: RealNumber,
    pub light_level: usize,
    pub light_index: usize,
    pub iscale: RealNumber,
}

/// The per-frame state: clip arrays and visplanes, closed column ranges, draw segs, the
/// sub-sectors visited in order, and the wall columns drawn.
pub struct Frame {
    pub planes: Planes,
    pub solid_segs: SolidSegs,
    pub draw_segs: DrawSegs,
    pub visited: Vec<usize>,
    pub visited_flags: Vec<bool>,
    pub columns: Vec<WallColumn>,
    /// A floor or ceiling could not be marked because the visplane pool was full.
    pub plane_overflow: bool,
}

/// A wall column lies inside the view and holds at least one row.
pub open spec fn column_in_view(c: WallColumn, view: ViewWindow) -> bool {
    0 <= c.x < view.width && 0 <= c.yl <= c.yh < view.height
}

impl Frame {
    pub open spec fn wf(&self, view: ViewWindow, n_subsectors: int) -> bool {
        &&& forall|k: int| 0 <= k < self.columns@.len() ==> column_in_view(#[trigger] self.columns@[k], view)
        &&& self.planes.wf()
        &&& self.planes.view_height == view.height
        &&& self.plane_overflow ==> self.planes.visible_planes@.len() == MAX_VISPLANES
        &&& self.solid_segs.wf()
        &&& self.solid_segs.view_width == view.width
        &&& self.draw_segs.segs@.len() <= MAX_DRAW_SEGS
        &&& self.visited_flags@.len() == n_subsectors
        &&& self.visited@.no_duplicates()
        &&& forall|k: int| 0 <= k < self.visited@.len() ==> (#[trigger] self.visited@[k]) < n_subsectors
            && self.visited_flags@[self.visited@[k] as int]
        &&& forall|q: int| 0 <= q < n_subsectors ==> #[trigger] self.visited_flags@[q] ==> self.visited@.contains(q as usize)
    }

    /// The state at the start of a frame: open clip arrays, no planes, only the two
    /// sentinel ranges, nothing visited or drawn.
    pub fn new(view: &ViewWindow, n_subsectors: usize) -> (r: Self)
        requires
            view.wf(),
        ensures
            r.wf(*view, n_subsectors as int),
            r.visited@.len() == 0,
            r.draw_segs.segs@.len() == 0,
            r.planes.visible_planes@.len() == 0,
            !r.plane_overflow,
    {
        let mut visited_flags: Vec<bool> = Vec::new();
        let mut i: usize = 0;
        while i < n_subsectors
            invariant
                i <= n_subsectors,
                visited_flags@.len() == i,
                forall|q: int| 0 <= q < i ==> !(#[trigger] visited_flags@[q]),
            decreases n_subsectors - i,
        {
            visited_flags.push(false);
            i = i + 1;
        }
        Frame {
            planes: Planes::new(view.height),
            solid_segs: SolidSegs::new(view.width),
            draw_segs: DrawSegs::new(),
            visited: Vec::new(),
            visited_flags,
            columns: Vec::new(),
            plane_overflow: false,
        }
    }
}

/// The plane that the current sub-sector's floor and ceiling are marked into.
pub struct SubsectorPlanes {
    pub floor: Option<usize>,
    pub ceiling: Option<usize>,
}

impl SubsectorPlanes {
    pub open spec fn wf(&self, planes: &Planes) -> bool {
        &&& (self.floor matches Some(p) ==> p < planes.visible_planes@.len())
        &&& (self.ceiling matches Some(p) ==> p < planes.visible_planes@.len())
    }
}

/// What stays the same while one frame is drawn: the viewer and the tables.
pub struct ViewContext<'a> {
    pub level: &'a Level,
    pub textures: &'a TextureData,
    pub view: &'a ViewWindow,
    pub view_position: Point3D,
    pub view_angle: Angle,
    pub extra_light: i32,
}

impl<'a> ViewContext<'a> {
    pub open spec fn wf(&self, renderer: &BspRenderer) -> bool {
        &&& self.level.wf()
        &&& self.view.wf()
        &&& renderer.wf(*self.view)
    }
}

/// Frame invariant plus the current sub-sector planes.
pub open spec fn frame_ok(ctx: &ViewContext, frame: &Frame, sp: &SubsectorPlanes) -> bool {
    &&& frame.wf(*ctx.view, ctx.level.sub_sectors@.len() as int)
    &&& sp.wf(&frame.planes)
}

/// What a wall piece leaves untouched in the frame.
pub open spec fn frame_kept(old_frame: &Frame, new_frame: &Frame) -> bool {
    &&& new_frame.visited == old_frame.visited
    &&& new_frame.visited_flags == old_frame.visited_flags
    &&& new_frame.solid_segs == old_frame.solid_segs
    &&& new_frame.planes.visible_planes@.len() >= old_frame.planes.visible_planes@.len()
    &&& new_frame.draw_segs.segs@.len() >= old_frame.draw_segs.segs@.len()
}

/// The texture height, or 0 for a number outside the table.
fn texture_height_of(textures: &TextureData, t: TextureNumber) -> (r: RealNumber)
    ensures
        t.0 < textures.texture_height@.len() ==> r == textures.texture_height@[t.0 as int],
        t.0 >= textures.texture_height@.len() ==> r@ == 0,
{
    if t.0 < textures.texture_height.len() {
        textures.texture_height[t.0]
    } else {
        RealNumber::new_from_bits(0)
    }
}

/// The animated texture that stands for `t`, or `t` for a number outside the table.
fn texture_translation_of(textures: &TextureData, t: TextureNumber) -> (r: TextureNumber)
    ensures
        t.0 < textures.texture_translation@.len() ==> r == textures.texture_translation@[t.0 as int],
        t.0 >= textures.texture_translation@.len() ==> r == t,
{
    if t.0 < textures.texture_translation.len() {
        textures.texture_translation[t.0]
    } else {
        t
    }
}

fn clamp_i64(v: i64, lo: i64, hi: i64) -> (r: i64)
    requires
        lo <= hi,
    ensures
        lo <= r <= hi,
        r == clamp_int(v as int, lo as int, hi as int),
{
    if v < lo {
        lo
    } else if v > hi {
        hi
    } else {
        v
    }
}

/// The texture scale of a wall at a view angle: with `a` = 90 + (visangle - view angle)
/// and `b` = 90 + (visangle - wall normal), `num = (projection * sin b) << detail`, `den = distance * sin a`;
/// `num / den` clamped to `[1/256, 64]` when `den > num >> 16`, else 64.
pub open spec fn scale_spec(visangle: u32, view_angle: u32, normal: u32, distance: i32, view: ViewWindow) -> i32 {
    let anglea = vstd::wrapping::u32_specs::wrapping_add(ANGLE_90, vstd::wrapping::u32_specs::wrapping_sub(visangle, view_angle));
    let angleb = vstd::wrapping::u32_specs::wrapping_add(ANGLE_90, vstd::wrapping::u32_specs::wrapping_sub(visangle, normal));
    let sinea = crate::rendering::tables::fine_sine_spec(anglea as int / 524288);
    let sineb = crate::rendering::tables::fine_sine_spec(angleb as int / 524288);
    let num = real_mul_spec(view.projection@, sineb) << view.detail_shift;
    let den = real_mul_spec(distance, sinea);
    if den > num >> 16u32 {
        let scale = real_div_spec(num, den);
        if scale > 64 * 65536 {
            4194304i32
        } else if scale < 256 {
            256i32
        } else {
            scale
        }
    } else {
        4194304i32
    }
}

/// A value after `k` steps of `step`, each sum wrapping as a 32-bit integer.
pub open spec fn stepped(v: i32, step: i32, k: nat) -> i32
    decreases k,
{
    if k == 0 {
        v
    } else {
        wrap_i32(stepped(v, step, (k - 1) as nat) + step)
    }
}

pub open spec fn clamp_int(v: int, lo: int, hi: int) -> int {
    if v < lo {
        lo
    } else if v > hi {
        hi
    } else {
        v
    }
}

/// First row below the ceiling clip that the wall top reaches: `(top_frac + HEIGHT_UNIT - 1)
/// >> HEIGHT_BITS`, at least `ceiling + 1`.
pub open spec fn column_yl(top_frac: i32, ceiling: int) -> int {
    let v = (wrap_i32(top_frac + 4095) >> 12u32) as int;
    if v < ceiling + 1 { ceiling + 1 } else { v }
}

/// Last row above the floor clip that the wall bottom reaches: `bottom_frac >> HEIGHT_BITS`,
/// at most `floor - 1`.
pub open spec fn column_yh(bottom_frac: i32, floor: int) -> int {
    let v = (bottom_frac >> 12u32) as int;
    if v >= floor { floor - 1 } else { v }
}

/// The ceiling clip a seg leaves at the column `k` steps from its start, before it is
/// kept within the view: the view height for a solid seg; else the bottom of the upper
/// wall (or the row above the wall top when the upper wall is not visible) when there is
/// an upper texture; else the row above the wall top when the ceiling is marked.
pub open spec fn raw_ceiling_clip(seg: SegLoop, k: nat, solid: bool, ceiling: int, floor: int, vh: int) -> int {
    let yl = column_yl(stepped(seg.top_frac@, seg.top_step@, k), ceiling);
    if solid {
        vh
    } else if seg.top_texture.0 != 0 {
        let m = (stepped(seg.pix_high@, seg.pix_high_step@, k) >> 12u32) as int;
        let mid = if m >= floor { floor - 1 } else { m };
        if mid >= yl { mid } else { yl - 1 }
    } else if seg.mark_ceiling {
        yl - 1
    } else {
        ceiling
    }
}

/// The floor clip a seg leaves at the column `k` steps from its start, before it is kept
/// within the view: -1 for a solid seg; else the top of the lower wall (below the new
/// ceiling clip) or the row below the wall bottom when there is a lower texture; else the
/// row below the wall bottom when the floor is marked.
pub open spec fn raw_floor_clip(seg: SegLoop, k: nat, solid: bool, ceiling: int, floor: int, vh: int) -> int {
    let yh = column_yh(stepped(seg.bottom_frac@, seg.bottom_step@, k), floor);
    if solid {
        -1
    } else if seg.bottom_texture.0 != 0 {
        let closed_to = clamp_int(raw_ceiling_clip(seg, k, solid, ceiling, floor, vh), -1, vh);
        let m = (wrap_i32(stepped(seg.pix_low@, seg.pix_low_step@, k) + 4095) >> 12u32) as int;
        let mid = if m <= closed_to { closed_to + 1 } else { m };
        if mid <= yh { mid } else { yh + 1 }
    } else if seg.mark_floor {
        yh + 1
    } else {
        floor
    }
}

/// The plane rows marked at column `x` for a wall whose top and bottom fractions there are
/// `top_frac` and `bottom_frac`: the floor plane's rows when the floor is marked, and the
/// ceiling plane's rows when the ceiling is marked (unless the floor plane is the same
/// plane and was marked after it).
pub open spec fn column_rows_marked(
    top_frac: i32,
    bottom_frac: i32,
    mark_ceiling: bool,
    mark_floor: bool,
    sp: &SubsectorPlanes,
    ceiling: int,
    floor: int,
    new_frame: &Frame,
    x: int,
) -> bool {
    let yl = column_yl(top_frac, ceiling);
    let yh = column_yh(bottom_frac, floor);
    let ctop = ceiling + 1;
    let cbottom = if yl - 1 >= floor { floor - 1 } else { yl - 1 };
    let ftop = if yh + 1 <= ceiling { ceiling + 1 } else { yh + 1 };
    let fbottom = floor - 1;
    let floor_marked = mark_floor && ftop <= fbottom;
    &&& (sp.floor is Some && floor_marked ==> new_frame.planes.visible_planes@[sp.floor->0 as int].top@[x] == ftop
        && new_frame.planes.visible_planes@[sp.floor->0 as int].bottom@[x] == fbottom)
    &&& (sp.ceiling is Some && mark_ceiling && ctop <= cbottom && !(sp.floor == sp.ceiling && floor_marked)
        ==> new_frame.planes.visible_planes@[sp.ceiling->0 as int].top@[x] == ctop
        && new_frame.planes.visible_planes@[sp.ceiling->0 as int].bottom@[x] == cbottom)
}

/// The plane rows that the column loop of `seg` leaves at column `x`, `x - start` steps
/// from its first column.
pub open spec fn rows_marked(seg: SegLoop, sp: &SubsectorPlanes, old_frame: &Frame, new_frame: &Frame, start: int, x: int) -> bool {
    let k = (x - start) as nat;
    column_rows_marked(
        stepped(seg.top_frac@, seg.top_step@, k),
        stepped(seg.bottom_frac@, seg.bottom_step@, k),
        seg.mark_ceiling,
        seg.mark_floor,
        sp,
        old_frame.planes.ceiling_clip@[x] as int,
        old_frame.planes.floor_clip@[x] as int,
        new_frame,
        x,
    )
}

/// The angle of a wall's normal: the seg's angle turned by 90 degrees.
pub open spec fn wall_normal(ctx: &ViewContext, seg_index: usize) -> u32 {
    vstd::wrapping::u32_specs::wrapping_add(ctx.level.segs@[seg_index as int].angle@, ANGLE_90)
}

/// The perpendicular distance from the viewer to a wall, from the distance to its first
/// vertex and the angle between the normal and the viewer's line to that vertex (taken in
/// `[0, 90]` degrees).
pub open spec fn wall_distance(ctx: &ViewContext, seg_index: usize, rw_angle1: Angle) -> i32 {
    let seg = ctx.level.segs@[seg_index as int];
    let off0 = vstd::wrapping::u32_specs::wrapping_sub(wall_normal(ctx, seg_index), rw_angle1@);
    let off1 = if off0 > ANGLE_180 { vstd::wrapping::u32_specs::wrapping_sub(0, off0) } else { off0 };
    let off = if off1 > ANGLE_90 { ANGLE_90 } else { off1 };
    let distangle = vstd::wrapping::u32_specs::wrapping_sub(ANGLE_90, off);
    let v1 = ctx.level.vertices@[seg.vertex1_index as int];
    let hyp = crate::rendering::types::distance_spec(v1.x@, v1.y@, ctx.view_position.x@, ctx.view_position.y@);
    real_mul_spec(hyp, crate::rendering::tables::fine_sine_spec(distangle as int / 524288))
}

/// The texture scale of a wall at screen column `x`.
pub open spec fn wall_scale_at(renderer: &BspRenderer, ctx: &ViewContext, seg_index: usize, rw_angle1: Angle, x: int) -> i32 {
    scale_spec(
        vstd::wrapping::u32_specs::wrapping_add(ctx.view_angle@, renderer.x_to_view_angle@[x]@),
        ctx.view_angle@,
        wall_normal(ctx, seg_index),
        wall_distance(ctx, seg_index, rw_angle1),
        *ctx.view,
    )
}

/// How many of `k` pieces fit in the draw-seg pool after `n0` draw segs.
pub open spec fn stored_count(k: int, n0: int) -> int {
    if k <= MAX_DRAW_SEGS - n0 { k } else { MAX_DRAW_SEGS - n0 }
}

/// One draw seg was appended for each maximal uncovered run of `first..=last`, left to
/// right, until the pool filled; the earlier draw segs are kept.
pub open spec fn pieces_stored(old_frame: &Frame, new_frame: &Frame, seg_index: usize, first: int, last: int) -> bool {
    let n0 = old_frame.draw_segs.segs@.len() as int;
    exists|pieces: Seq<ClipRange>| {
        &&& solid_seg::uncovered_pieces(old_frame.solid_segs.segs@, first, last, pieces)
        &&& new_frame.draw_segs.segs@.len() == n0 + stored_count(pieces.len() as int, n0)
        &&& forall|i: int| 0 <= i < n0 ==> #[trigger] new_frame.draw_segs.segs@[i] == old_frame.draw_segs.segs@[i]
        &&& forall|j: int| 0 <= j < stored_count(pieces.len() as int, n0) ==> {
            let d = #[trigger] new_frame.draw_segs.segs@[n0 + j];
            d.x1 == pieces[j].first && d.x2 == pieces[j].last && d.seg_index == seg_index
        }
    }
}

/// The screen column of a view angle, through the angle-to-column table; `None` past it.
pub open spec fn column_of_angle(renderer: &BspRenderer, angle: u32) -> Option<i32> {
    let index = vstd::wrapping::u32_specs::wrapping_add(angle, ANGLE_90) as int / 524288;
    if index < VIEW_ANGLES { Some(renderer.view_angle_to_x@[index]) } else { None }
}

/// A span between view angles `b1` (left) and `b2` (right), of width `span`, clipped to
/// the field of view: `(0, _, _)` when it lies wholly outside, `(1, _, _)` when an end has
/// no column, else `(2, x1, x2)` with the columns of its two ends.
pub open spec fn clip_span(renderer: &BspRenderer, b1: u32, b2: u32, span: u32) -> (int, int, int) {
    let clip = renderer.clip_angle@;
    let dbl = vstd::wrapping::u32_specs::wrapping_mul(2, clip);
    let t1 = vstd::wrapping::u32_specs::wrapping_add(b1, clip);
    let t2 = vstd::wrapping::u32_specs::wrapping_sub(clip, b2);
    if t1 > dbl && vstd::wrapping::u32_specs::wrapping_sub(t1, dbl) >= span {
        (0, 0, 0)
    } else if t2 > dbl && vstd::wrapping::u32_specs::wrapping_sub(t2, dbl) >= span {
        (0, 0, 0)
    } else {
        let c1 = if t1 > dbl { clip } else { b1 };
        let c2 = if t2 > dbl { vstd::wrapping::u32_specs::wrapping_sub(0, clip) } else { b2 };
        match (column_of_angle(renderer, c1), column_of_angle(renderer, c2)) {
            (Some(x1), Some(x2)) => (2, x1 as int, x2 as int),
            _ => (1, 0, 0),
        }
    }
}

/// How a seg clips: 0 solid (one-sided, or a closed door), 1 a window to pass through,
/// 2 an empty line between two alike sectors, drawn not at all.
pub open spec fn line_kind(ctx: &ViewContext, seg_index: usize) -> int {
    let seg = ctx.level.segs@[seg_index as int];
    let front = ctx.level.sectors@[seg.front_sector_index as int];
    match seg.back_sector_index {
        None => 0,
        Some(b) => {
            let back = ctx.level.sectors@[b as int];
            if back.ceiling_height@ <= front.floor_height@ || back.floor_height@ >= front.ceiling_height@ {
                0
            } else if back.ceiling_height@ != front.ceiling_height@ || back.floor_height@ != front.floor_height@ {
                1
            } else if back.ceiling_pic == front.ceiling_pic && back.floor_pic == front.floor_pic
                && back.light_level == front.light_level
                && ctx.level.side_defs@[seg.sidedef_index as int].mid_texture.0 == 0 {
                2
            } else {
                1
            }
        },
    }
}

/// The screen columns `(x1, x2)` (the seg covers `x1..x2`) of a seg facing the viewer and
/// inside the field of view; `None` for a seg culled before clipping.
pub open spec fn line_columns(renderer: &BspRenderer, ctx: &ViewContext, seg_index: usize) -> Option<(int, int)> {
    let seg = ctx.level.segs@[seg_index as int];
    let v1 = ctx.level.vertices@[seg.vertex1_index as int];
    let v2 = ctx.level.vertices@[seg.vertex2_index as int];
    let p = ctx.view_position;
    let a1 = crate::rendering::types::point_to_angle(v1.x@, v1.y@, p.x@, p.y@);
    let a2 = crate::rendering::types::point_to_angle(v2.x@, v2.y@, p.x@, p.y@);
    let span = vstd::wrapping::u32_specs::wrapping_sub(a1, a2);
    if span >= ANGLE_180 {
        None
    } else {
        let c = clip_span(
            renderer,
            vstd::wrapping::u32_specs::wrapping_sub(a1, ctx.view_angle@),
            vstd::wrapping::u32_specs::wrapping_sub(a2, ctx.view_angle@),
            span,
        );
        if c.0 == 2 && c.1 < c.2 { Some((c.1, c.2)) } else { None }
    }
}

/// Whether a box may be visible: the viewer is inside it, or its silhouette spans half a
/// turn or more, or part of the silhouette's screen columns lies in the view and outside
/// every closed range.
pub open spec fn box_visible(renderer: &BspRenderer, bounds: &BoundingBox, pos: &Point2D, view_angle: u32, segs: Seq<ClipRange>) -> bool {
    let box_x: int = if pos.x@ <= bounds.left_bits() { 0 } else if pos.x@ < bounds.right_bits() { 1 } else { 2 };
    let box_y: int = if pos.y@ >= bounds.top_bits() { 0 } else if pos.y@ > bounds.bottom_bits() { 1 } else { 2 };
    let bp = box_y * 4 + box_x;
    if bp == 5 {
        true
    } else {
        let corners = CHECK_COORD[bp];
        let x1 = bounds.coordinates[corners[0] as int]@;
        let y1 = bounds.coordinates[corners[1] as int]@;
        let x2 = bounds.coordinates[corners[2] as int]@;
        let y2 = bounds.coordinates[corners[3] as int]@;
        let a1 = vstd::wrapping::u32_specs::wrapping_sub(crate::rendering::types::point_to_angle(x1, y1, pos.x@, pos.y@), view_angle);
        let a2 = vstd::wrapping::u32_specs::wrapping_sub(crate::rendering::types::point_to_angle(x2, y2, pos.x@, pos.y@), view_angle);
        let span = vstd::wrapping::u32_specs::wrapping_sub(a1, a2);
        if span >= ANGLE_180 {
            true
        } else {
            let c = clip_span(renderer, a1, a2, span);
            if c.0 == 0 {
                false
            } else if c.0 == 1 {
                true
            } else if c.1 == c.2 {
                false
            } else {
                !exists|k: int| 0 <= k < segs.len() && (#[trigger] segs[k]).first <= c.1 && c.2 - 1 <= segs[k].last
            }
        }
    }
}

/// The columns of a solid seg that faces the viewer inside the field of view are closed.
pub open spec fn seg_closed(renderer: &BspRenderer, ctx: &ViewContext, seg_index: usize, frame: &Frame) -> bool {
    line_kind(ctx, seg_index) == 0 ==> (line_columns(renderer, ctx, seg_index) matches Some((x1, x2)) ==> forall|x: int|
        x1 <= x < x2 ==> #[trigger] solid_seg::covered(frame.solid_segs.segs@, x))
}

/// Every solid seg of a sub-sector has closed its columns.
pub open spec fn subsector_closed(renderer: &BspRenderer, ctx: &ViewContext, subsector_index: usize, frame: &Frame) -> bool {
    let ss = ctx.level.sub_sectors@[subsector_index as int];
    forall|k: int| ss.first_seg_index <= k < ss.first_seg_index + ss.num_segs ==> #[trigger] seg_closed(renderer, ctx, k as usize, frame)
}

/// Sub-sector `ss` lies under the tree reference `r` (a node, or a sub-sector when its high
/// bit is set), following only children stored before their parent.
pub open spec fn in_subtree(level: &Level, r: int, ss: int) -> bool
    decreases (if r >= 0x8000 { 0 } else { r + 1 }),
{
    if r >= 0x8000 {
        r - 0x8000 == ss
    } else if 0 <= r < level.nodes@.len() {
        let n = level.nodes@[r];
        (n.children[0] < r && in_subtree(level, n.children[0] as int, ss)) || (n.children[0] >= 0x8000 && in_subtree(level, n.children[0] as int, ss))
            || (n.children[1] < r && in_subtree(level, n.children[1] as int, ss)) || (n.children[1] >= 0x8000 && in_subtree(level, n.children[1] as int, ss))
    } else {
        false
    }
}

/// The sub-sectors visited from `start` on split into those under the node's front child
/// (the side the viewer is on), then those under its back child.
pub open spec fn visits_front_first(level: &Level, pos: Point3D, node_index: usize, start: int, visited: Seq<usize>) -> bool {
    exists|mid: int| #[trigger] front_then_back(level, pos, node_index, start, mid, visited)
}

/// The visits `start..mid` lie under the node's front child and `mid..` under its back child.
pub open spec fn front_then_back(level: &Level, pos: Point3D, node_index: usize, start: int, mid: int, visited: Seq<usize>) -> bool {
    let n = level.nodes@[node_index as int];
    let p = pos;
    let side = point_on_side_spec(p.x@, p.y@, n.x@, n.y@, n.dx@, n.dy@);
    start <= mid <= visited.len() && (forall|k: int| start <= k < mid ==> in_subtree(level, n.children[side as int] as int, #[trigger] visited[k] as int))
        && (forall|k: int| mid <= k < visited.len() ==> in_subtree(level, n.children[1 - side] as int, #[trigger] visited[k] as int))
}

/// Per-seg values that the column loop steps along.
#[derive(Copy, Clone, Debug)]
pub struct SegLoop {
    pub center_angle: Angle,
    pub offset: RealNumber,
    pub distance: RealNumber,
    pub scale: RealNumber,
    pub scale_step: RealNumber,
    pub top_frac: RealNumber,
    pub top_step: RealNumber,
    pub bottom_frac: RealNumber,
    pub bottom_step: RealNumber,
    pub pix_high: RealNumber,
    pub pix_high_step: RealNumber,
    pub pix_low: RealNumber,
    pub pix_low_step: RealNumber,
    pub mid_texture: TextureNumber,
    pub top_texture: TextureNumber,
    pub bottom_texture: TextureNumber,
    pub mid_texture_mid: RealNumber,
    pub top_texture_mid: RealNumber,
    pub bottom_texture_mid: RealNumber,
    pub mark_ceiling: bool,
    pub mark_floor: bool,
    pub textured: bool,
    pub light_level: usize,
}

impl BspRenderer {
    /// The texture scale of the current wall at a view angle.
    pub fn scale_from_global_angle(
        visangle: Angle,
        view_angle: Angle,
        rw_normalangle: Angle,
        rw_distance: RealNumber,
        view: &ViewWindow,
    ) -> (r: RealNumber)
        requires
            view.wf(),
        ensures
            256 <= r@ <= 64 * 65536,
            r@ == scale_spec(visangle@, view_angle@, rw_normalangle@, rw_distance@, *view),
    {
        let anglea = Angle::angle90().add(visangle.sub(view_angle));
        let angleb = Angle::angle90().add(visangle.sub(rw_normalangle));
        let sinea = anglea.sine();
        let sineb = angleb.sine();
        let num = view.projection.mul(sineb).shl(view.detail_shift);
        let den = rw_distance.mul(sinea);
        let max_scale = RealNumber::new(64);
        if den.gt(num.shr(16)) {
            let scale = num.div(den);
            if scale.gt(max_scale) {
                max_scale
            } else if scale.lt(RealNumber::new_from_bits(256)) {
                RealNumber::new_from_bits(256)
            } else {
                scale
            }
        } else {
            max_scale
        }
    }

    /// Marks the floor and ceiling planes and hands wall columns to
    /// the drawer for columns `start..=stop`, then closes or narrows each column.
    #[verifier::rlimit(100)]
    #[verifier::spinoff_prover]
    fn render_seg_loop(
        &self,
        ctx: &ViewContext,
        seg: &mut SegLoop,
        start: i32,
        stop: i32,
        solid: bool,
        frame: &mut Frame,
        sp: &SubsectorPlanes,
    )
        requires
            ctx.wf(self),
            frame_ok(ctx, old(frame), sp),
            0 <= start <= stop < ctx.view.width,
            sp.ceiling matches Some(p) ==> old(frame).planes.visible_planes@[p as int].min_x <= start
                && stop <= old(frame).planes.visible_planes@[p as int].max_x,
            sp.floor matches Some(p) ==> old(frame).planes.visible_planes@[p as int].min_x <= start
                && stop <= old(frame).planes.visible_planes@[p as int].max_x,
        ensures
            frame_ok(ctx, final(frame), sp),
            frame_kept(old(frame), final(frame)),
            final(frame).planes.visible_planes@.len() == old(frame).planes.visible_planes@.len(),
            final(frame).draw_segs.segs@ == old(frame).draw_segs.segs@,
            forall|q: int| 0 <= q < old(frame).planes.visible_planes@.len() ==> (#[trigger] final(frame).planes.visible_planes@[q]).has_key(
                old(frame).planes.visible_planes@[q].height, old(frame).planes.visible_planes@[q].picnum,
                old(frame).planes.visible_planes@[q].light_level),
            forall|x: int|
                0 <= x < RENDER_WIDTH && !(start <= x <= stop) ==> #[trigger] final(frame).planes.floor_clip@[x]
                    == old(frame).planes.floor_clip@[x],
            forall|x: int|
                0 <= x < RENDER_WIDTH && !(start <= x <= stop) ==> #[trigger] final(frame).planes.ceiling_clip@[x]
                    == old(frame).planes.ceiling_clip@[x],
            forall|x: int|
                start <= x <= stop ==> #[trigger] final(frame).planes.ceiling_clip@[x] == clamp_int(
                    raw_ceiling_clip(*old(seg), (x - start) as nat, solid, old(frame).planes.ceiling_clip@[x] as int,
                        old(frame).planes.floor_clip@[x] as int, ctx.view.height as int),
                    -1,
                    ctx.view.height as int,
                ),
            forall|x: int|
                start <= x <= stop ==> #[trigger] final(frame).planes.floor_clip@[x] == clamp_int(
                    raw_floor_clip(*old(seg), (x - start) as nat, solid, old(frame).planes.ceiling_clip@[x] as int,
                        old(frame).planes.floor_clip@[x] as int, ctx.view.height as int),
                    -1,
                    ctx.view.height as int,
                ),
            forall|x: int| start <= x <= stop ==> #[trigger] rows_marked(*old(seg), sp, old(frame), final(frame), start as int, x),
    {
        let view_height = ctx.view.height as i64;
        let mut x: i32 = start;
        while x <= stop
            invariant
                ctx.wf(self),
                frame_ok(ctx, frame, sp),
                frame_kept(old(frame), frame),
                frame.planes.visible_planes@.len() == old(frame).planes.visible_planes@.len(),
                frame.draw_segs.segs@ == old(frame).draw_segs.segs@,
                forall|q: int| 0 <= q < old(frame).planes.visible_planes@.len() ==> (#[trigger] frame.planes.visible_planes@[q]).has_key(
                    old(frame).planes.visible_planes@[q].height, old(frame).planes.visible_planes@[q].picnum,
                    old(frame).planes.visible_planes@[q].light_level),
                view_height == ctx.view.height,
                frame.planes.view_height == ctx.view.height,
                0 <= start <= x,
                x <= stop + 1,
                stop < ctx.view.width,
                sp.ceiling matches Some(p) ==> frame.planes.visible_planes@[p as int].min_x <= start
                    && stop <= frame.planes.visible_planes@[p as int].max_x,
                sp.floor matches Some(p) ==> frame.planes.visible_planes@[p as int].min_x <= start
                    && stop <= frame.planes.visible_planes@[p as int].max_x,
                forall|c: int|
                    0 <= c < RENDER_WIDTH && !(start <= c <= stop) ==> #[trigger] frame.planes.floor_clip@[c]
                        == old(frame).planes.floor_clip@[c],
                forall|c: int|
                    0 <= c < RENDER_WIDTH && !(start <= c <= stop) ==> #[trigger] frame.planes.ceiling_clip@[c]
                        == old(frame).planes.ceiling_clip@[c],
                forall|c: int|
                    x <= c <= stop ==> #[trigger] frame.planes.ceiling_clip@[c] == old(frame).planes.ceiling_clip@[c]
                        && frame.planes.floor_clip@[c] == old(frame).planes.floor_clip@[c],
                forall|c: int|
                    start <= c < x ==> #[trigger] frame.planes.ceiling_clip@[c] == clamp_int(
                        raw_ceiling_clip(*old(seg), (c - start) as nat, solid, old(frame).planes.ceiling_clip@[c] as int,
                            old(frame).planes.floor_clip@[c] as int, ctx.view.height as int),
                        -1,
                        ctx.view.height as int,
                    ) && frame.planes.floor_clip@[c] == clamp_int(
                        raw_floor_clip(*old(seg), (c - start) as nat, solid, old(frame).planes.ceiling_clip@[c] as int,
                            old(frame).planes.floor_clip@[c] as int, ctx.view.height as int),
                        -1,
                        ctx.view.height as int,
                    ),
                seg.top_frac@ == stepped(old(seg).top_frac@, old(seg).top_step@, (x - start) as nat),
                seg.bottom_frac@ == stepped(old(seg).bottom_frac@, old(seg).bottom_step@, (x - start) as nat),
                !solid && old(seg).top_texture.0 != 0 ==> seg.pix_high@ == stepped(old(seg).pix_high@, old(seg).pix_high_step@, (x - start) as nat),
                !solid && old(seg).bottom_texture.0 != 0 ==> seg.pix_low@ == stepped(old(seg).pix_low@, old(seg).pix_low_step@, (x - start) as nat),
                seg.top_step == old(seg).top_step,
                seg.bottom_step == old(seg).bottom_step,
                seg.pix_high_step == old(seg).pix_high_step,
                seg.pix_low_step == old(seg).pix_low_step,
                seg.top_texture == old(seg).top_texture,
                seg.bottom_texture == old(seg).bottom_texture,
                seg.mid_texture == old(seg).mid_texture,
                seg.mark_ceiling == old(seg).mark_ceiling,
                seg.mark_floor == old(seg).mark_floor,
                forall|c: int| start <= c < x ==> #[trigger] rows_marked(*old(seg), sp, old(frame), frame, start as int, c),
            decreases stop + 1 - x,
        {
            let xu = x as usize;
            let ceiling_clip = frame.planes.ceiling_clip[xu] as i64;
            let floor_clip = frame.planes.floor_clip[xu] as i64;
            let ghost planes_before = *frame;
            let (yl, yh) = self.mark_column_planes(frame, seg, sp, xu, start, stop);
            let ghost after_mark = *frame;
            proof {
                assert forall|c: int| start <= c < x implies #[trigger] rows_marked(*old(seg), sp, old(frame), frame, start as int, c) by {
                    assert(rows_marked(*old(seg), sp, old(frame), &planes_before, start as int, c));
                    if let Some(pf) = sp.floor {
                        assert(frame.planes.visible_planes@[pf as int].top@[c] == planes_before.planes.visible_planes@[pf as int].top@[c]);
                    }
                    if let Some(pc) = sp.ceiling {
                        assert(frame.planes.visible_planes@[pc as int].top@[c] == planes_before.planes.visible_planes@[pc as int].top@[c]);
                    }
                }
            }
            let mut texture_column: i32 = 0;
            let mut light_index: usize = 0;
            let scale_bits = seg.scale.to_bits();
            let iscale = if scale_bits > 0 {
                RealNumber::new_from_bits((0xffff_ffffu32 / (scale_bits as u32)) as i32)
            } else {
                RealNumber::new_from_bits(i32::MAX)
            };
            if seg.textured {
                let angle = seg.center_angle.add(self.x_to_view_angle[xu]).fine_index();
                let angle = if angle < FINE_TANGENT_LEN { angle } else { FINE_TANGENT_LEN - 1 };
                let tangent = RealNumber::new_from_bits(fine_tangent(angle));
                texture_column = seg.offset.sub(tangent.mul(seg.distance)).to_int();
                let index = seg.scale.shr(LIGHT_SCALE_SHIFT).to_bits();
                light_index = if index < 0 {
                    0
                } else if index >= MAX_LIGHT_SCALE as i32 {
                    MAX_LIGHT_SCALE - 1
                } else {
                    index as usize
                };
            }
            let mut new_ceiling = ceiling_clip;
            let mut new_floor = floor_clip;
            let ghost columns_before = frame.columns@;
            if solid {
                if !seg.mid_texture.is_zero() && yl <= yh {
                    frame.columns.push(WallColumn {
                        x,
                        yl: yl as i32,
                        yh: yh as i32,
                        texture: seg.mid_texture,
                        texture_column,
                        texture_mid: seg.mid_texture_mid,
                        light_level: seg.light_level,
                        light_index,
                        iscale,
                    });
                }
                new_ceiling = view_height;
                new_floor = -1;
            } else {
                if !seg.top_texture.is_zero() {
                    let mut mid = (seg.pix_high.to_bits() >> HEIGHT_BITS) as i64;
                    seg.pix_high = seg.pix_high.add(seg.pix_high_step);
                    if mid >= floor_clip {
                        mid = floor_clip - 1;
                    }
                    if mid >= yl {
                        frame.columns.push(WallColumn {
                            x,
                            yl: yl as i32,
                            yh: mid as i32,
                            texture: seg.top_texture,
                            texture_column,
                            texture_mid: seg.top_texture_mid,
                            light_level: seg.light_level,
                            light_index,
                            iscale,
                        });
                        new_ceiling = mid;
                    } else {
                        new_ceiling = yl - 1;
                    }
                } else if seg.mark_ceiling {
                    new_ceiling = yl - 1;
                }
                if !seg.bottom_texture.is_zero() {
                    let mut mid = (seg.pix_low.add(RealNumber::new_from_bits(HEIGHT_UNIT - 1)).to_bits() >> HEIGHT_BITS) as i64;
                    seg.pix_low = seg.pix_low.add(seg.pix_low_step);
                    let closed_to = clamp_i64(new_ceiling, -1, view_height);
                    if mid <= closed_to {
                        mid = closed_to + 1;
                    }
                    if mid <= yh {
                        frame.columns.push(WallColumn {
                            x,
                            yl: mid as i32,
                            yh: yh as i32,
                            texture: seg.bottom_texture,
                            texture_column,
                            texture_mid: seg.bottom_texture_mid,
                            light_level: seg.light_level,
                            light_index,
                            iscale,
                        });
                        new_floor = mid;
                    } else {
                        new_floor = yh + 1;
                    }
                } else if seg.mark_floor {
                    new_floor = yh + 1;
                }
            }
            proof {
                assert forall|k: int| 0 <= k < frame.columns@.len() implies column_in_view(#[trigger] frame.columns@[k], *ctx.view) by {
                    if k >= columns_before.len() {
                        let pushed = frame.columns@[k];
                        assert(pushed.x == x);
                    } else {
                        assert(frame.columns@[k] == columns_before[k]);
                    }
                }
            }
            let ghost ceil_before = frame.planes.ceiling_clip@;
            let ghost floor_before = frame.planes.floor_clip@;
            let ghost frame_before = *frame;
            // Clip values stay within the view: a ceiling below the last row or a floor
            // above the first closes the column just as the bound does.
            frame.planes.ceiling_clip.set(xu, clamp_i64(new_ceiling, -1, view_height) as i16);
            frame.planes.floor_clip.set(xu, clamp_i64(new_floor, -1, view_height) as i16);
            proof {
                assert forall|c: int| 0 <= c < RENDER_WIDTH implies -1 <= #[trigger] frame.planes.floor_clip@[c]
                    <= view_height && -1 <= frame.planes.ceiling_clip@[c] <= view_height by {
                    if c != x {
                        assert(frame.planes.floor_clip@[c] == floor_before[c]);
                        assert(frame.planes.ceiling_clip@[c] == ceil_before[c]);
                    }
                }
                assert forall|c: int|
                    0 <= c < RENDER_WIDTH && !(start <= c <= stop) implies #[trigger] frame.planes.floor_clip@[c]
                        == old(frame).planes.floor_clip@[c] by {
                    assert(frame.planes.floor_clip@[c] == floor_before[c]);
                }
                assert forall|c: int|
                    0 <= c < RENDER_WIDTH && !(start <= c <= stop) implies #[trigger] frame.planes.ceiling_clip@[c]
                        == old(frame).planes.ceiling_clip@[c] by {
                    assert(frame.planes.ceiling_clip@[c] == ceil_before[c]);
                }
                assert(frame.planes.visible_planes == frame_before.planes.visible_planes);
                assert forall|c: int| start <= c < x + 1 implies #[trigger] rows_marked(*old(seg), sp, old(frame), frame, start as int, c) by {
                    if c < x {
                        assert(rows_marked(*old(seg), sp, old(frame), &after_mark, start as int, c));
                    } else {
                        assert(column_rows_marked(seg.top_frac@, seg.bottom_frac@, seg.mark_ceiling, seg.mark_floor, sp,
                            old(frame).planes.ceiling_clip@[x as int] as int, old(frame).planes.floor_clip@[x as int] as int,
                            &after_mark, x as int));
                    }
                }
                let k = (x - start) as nat;
                assert(ceiling_clip == old(frame).planes.ceiling_clip@[x as int]);
                assert(floor_clip == old(frame).planes.floor_clip@[x as int]);
                assert(new_ceiling == raw_ceiling_clip(*old(seg), k, solid, ceiling_clip as int, floor_clip as int, view_height as int));
                assert(new_floor == raw_floor_clip(*old(seg), k, solid, ceiling_clip as int, floor_clip as int, view_height as int));
                assert forall|c: int|
                    x + 1 <= c <= stop implies #[trigger] frame.planes.ceiling_clip@[c] == old(frame).planes.ceiling_clip@[c]
                        && frame.planes.floor_clip@[c] == old(frame).planes.floor_clip@[c] by {
                    assert(frame.planes.floor_clip@[c] == floor_before[c]);
                    assert(frame.planes.ceiling_clip@[c] == ceil_before[c]);
                }
                assert forall|c: int|
                    start <= c < x + 1 implies #[trigger] frame.planes.ceiling_clip@[c] == clamp_int(
                        raw_ceiling_clip(*old(seg), (c - start) as nat, solid, old(frame).planes.ceiling_clip@[c] as int,
                            old(frame).planes.floor_clip@[c] as int, ctx.view.height as int),
                        -1,
                        ctx.view.height as int,
                    ) && frame.planes.floor_clip@[c] == clamp_int(
                        raw_floor_clip(*old(seg), (c - start) as nat, solid, old(frame).planes.ceiling_clip@[c] as int,
                            old(frame).planes.floor_clip@[c] as int, ctx.view.height as int),
                        -1,
                        ctx.view.height as int,
                    ) by {
                    if c < x {
                        assert(frame.planes.floor_clip@[c] == floor_before[c]);
                        assert(frame.planes.ceiling_clip@[c] == ceil_before[c]);
                    }
                }
            }
            seg.scale = seg.scale.add(seg.scale_step);
            seg.top_frac = seg.top_frac.add(seg.top_step);
            seg.bottom_frac = seg.bottom_frac.add(seg.bottom_step);
            x = x + 1;
        }
    }

    /// Marks the ceiling and floor plane rows of column `x` for the wall's current top and
    /// bottom fractions, and returns the wall's first and last rows there.
    fn mark_column_planes(&self, frame: &mut Frame, seg: &SegLoop, sp: &SubsectorPlanes, x: usize, start: i32, stop: i32) -> (r: (i64, i64))
        requires
            old(frame).planes.wf(),
            sp.wf(&old(frame).planes),
            x < RENDER_WIDTH,
            start <= x <= stop,
            sp.ceiling matches Some(p) ==> old(frame).planes.visible_planes@[p as int].min_x <= start
                && stop <= old(frame).planes.visible_planes@[p as int].max_x,
            sp.floor matches Some(p) ==> old(frame).planes.visible_planes@[p as int].min_x <= start
                && stop <= old(frame).planes.visible_planes@[p as int].max_x,
        ensures
            final(frame).planes.wf(),
            final(frame).planes.view_height == old(frame).planes.view_height,
            final(frame).planes.floor_clip == old(frame).planes.floor_clip,
            final(frame).planes.ceiling_clip == old(frame).planes.ceiling_clip,
            final(frame).planes.visible_planes@.len() == old(frame).planes.visible_planes@.len(),
            forall|q: int| 0 <= q < old(frame).planes.visible_planes@.len() ==>
                (#[trigger] final(frame).planes.visible_planes@[q]).min_x == old(frame).planes.visible_planes@[q].min_x
                && final(frame).planes.visible_planes@[q].max_x == old(frame).planes.visible_planes@[q].max_x
                && final(frame).planes.visible_planes@[q].has_key(old(frame).planes.visible_planes@[q].height,
                    old(frame).planes.visible_planes@[q].picnum, old(frame).planes.visible_planes@[q].light_level),
            forall|q: int, c: int|
                0 <= q < old(frame).planes.visible_planes@.len() && 0 <= c < RENDER_WIDTH && c != x
                    ==> (#[trigger] final(frame).planes.visible_planes@[q].top@[c]) == old(frame).planes.visible_planes@[q].top@[c]
                    && final(frame).planes.visible_planes@[q].bottom@[c] == old(frame).planes.visible_planes@[q].bottom@[c],
            final(frame).visited == old(frame).visited,
            final(frame).visited_flags == old(frame).visited_flags,
            final(frame).solid_segs == old(frame).solid_segs,
            final(frame).draw_segs == old(frame).draw_segs,
            final(frame).columns == old(frame).columns,
            final(frame).plane_overflow == old(frame).plane_overflow,
            r.0 == column_yl(seg.top_frac@, old(frame).planes.ceiling_clip@[x as int] as int),
            r.1 == column_yh(seg.bottom_frac@, old(frame).planes.floor_clip@[x as int] as int),
            column_rows_marked(seg.top_frac@, seg.bottom_frac@, seg.mark_ceiling, seg.mark_floor, sp,
                old(frame).planes.ceiling_clip@[x as int] as int, old(frame).planes.floor_clip@[x as int] as int,
                final(frame), x as int),
    {
        let ceiling_clip = frame.planes.ceiling_clip[x] as i64;
        let floor_clip = frame.planes.floor_clip[x] as i64;
        let mut yl = (seg.top_frac.add(RealNumber::new_from_bits(HEIGHT_UNIT - 1)).to_bits() >> HEIGHT_BITS) as i64;
        if yl < ceiling_clip + 1 {
            yl = ceiling_clip + 1;
        }
        let mut yh = (seg.bottom_frac.to_bits() >> HEIGHT_BITS) as i64;
        if yh >= floor_clip {
            yh = floor_clip - 1;
        }
        let ghost f0 = *frame;
        if seg.mark_ceiling {
            let top = ceiling_clip + 1;
            let mut bottom = yl - 1;
            if bottom >= floor_clip {
                bottom = floor_clip - 1;
            }
            if top <= bottom {
                match sp.ceiling {
                    Some(p) => {
                        self.mark_plane_column(frame, p, x, top as u8, bottom as u8, start, stop);
                    },
                    None => {},
                }
            }
        }
        let ghost f1 = *frame;
        if seg.mark_floor {
            let mut top = yh + 1;
            let bottom = floor_clip - 1;
            if top <= ceiling_clip {
                top = ceiling_clip + 1;
            }
            if top <= bottom {
                match sp.floor {
                    Some(p) => {
                        self.mark_plane_column(frame, p, x, top as u8, bottom as u8, start, stop);
                    },
                    None => {},
                }
            }
        }
        proof {
            assert forall|q: int, c: int|
                0 <= q < old(frame).planes.visible_planes@.len() && 0 <= c < RENDER_WIDTH && c != x
                    implies (#[trigger] frame.planes.visible_planes@[q].top@[c]) == old(frame).planes.visible_planes@[q].top@[c]
                    && frame.planes.visible_planes@[q].bottom@[c] == old(frame).planes.visible_planes@[q].bottom@[c] by {
                assert(frame.planes.visible_planes@[q].top@[c] == f1.planes.visible_planes@[q].top@[c]);
                assert(f1.planes.visible_planes@[q].top@[c] == f0.planes.visible_planes@[q].top@[c]);
                assert(frame.planes.visible_planes@[q].bottom@[c] == f1.planes.visible_planes@[q].bottom@[c]);
                assert(f1.planes.visible_planes@[q].bottom@[c] == f0.planes.visible_planes@[q].bottom@[c]);
            }
            if let Some(pc) = sp.ceiling {
                if let Some(pf) = sp.floor {
                    if pf != pc {
                        assert(frame.planes.visible_planes@[pc as int].top@[x as int] == f1.planes.visible_planes@[pc as int].top@[x as int]);
                    }
                }
            }
        }
        (yl, yh)
    }

    /// Writes rows `top..=bottom` of column `x` of plane `p`.
    fn mark_plane_column(&self, frame: &mut Frame, p: usize, x: usize, top: u8, bottom: u8, start: i32, stop: i32)
        requires
            old(frame).planes.wf(),
            p < old(frame).planes.visible_planes@.len(),
            x < RENDER_WIDTH,
            top <= bottom,
            top != 255,
            old(frame).planes.visible_planes@[p as int].min_x <= start <= x <= stop,
            stop <= old(frame).planes.visible_planes@[p as int].max_x,
        ensures
            final(frame).planes.wf(),
            final(frame).planes.view_height == old(frame).planes.view_height,
            final(frame).planes.floor_clip == old(frame).planes.floor_clip,
            final(frame).planes.ceiling_clip == old(frame).planes.ceiling_clip,
            final(frame).planes.visible_planes@.len() == old(frame).planes.visible_planes@.len(),
            forall|q: int| 0 <= q < old(frame).planes.visible_planes@.len() ==>
                (#[trigger] final(frame).planes.visible_planes@[q]).min_x == old(frame).planes.visible_planes@[q].min_x
                && final(frame).planes.visible_planes@[q].max_x == old(frame).planes.visible_planes@[q].max_x
                && final(frame).planes.visible_planes@[q].has_key(old(frame).planes.visible_planes@[q].height,
                    old(frame).planes.visible_planes@[q].picnum, old(frame).planes.visible_planes@[q].light_level),
            final(frame).visited == old(frame).visited,
            final(frame).visited_flags == old(frame).visited_flags,
            final(frame).solid_segs == old(frame).solid_segs,
            final(frame).draw_segs == old(frame).draw_segs,
            final(frame).columns == old(frame).columns,
            final(frame).plane_overflow == old(frame).plane_overflow,
            final(frame).planes.visible_planes@[p as int].top@[x as int] == top,
            final(frame).planes.visible_planes@[p as int].bottom@[x as int] == bottom,
            forall|q: int, c: int|
                0 <= q < old(frame).planes.visible_planes@.len() && 0 <= c < RENDER_WIDTH && !(q == p && c == x)
                    ==> (#[trigger] final(frame).planes.visible_planes@[q].top@[c]) == old(frame).planes.visible_planes@[q].top@[c]
                    && final(frame).planes.visible_planes@[q].bottom@[c] == old(frame).planes.visible_planes@[q].bottom@[c],
    {
        let ghost before = frame.planes.visible_planes@;
        frame.planes.visible_planes[p].top.set(x, top);
        frame.planes.visible_planes[p].bottom.set(x, bottom);
        proof {
            assert forall|q: int| 0 <= q < frame.planes.visible_planes@.len() implies (#[trigger] frame.planes.visible_planes@[q]).wf() by {
                if q != p {
                    assert(frame.planes.visible_planes@[q] == before[q]);
                } else {
                    let pl = frame.planes.visible_planes@[q];
                    assert forall|c: int| 0 <= c < RENDER_WIDTH implies #[trigger] pl.top@[c] == 255u8 || (pl.top@[c]
                        <= pl.bottom@[c] && pl.min_x <= c <= pl.max_x) by {
                        if c != x {
                            assert(pl.top@[c] == before[q].top@[c]);
                            assert(pl.bottom@[c] == before[q].bottom@[c]);
                        }
                    }
                }
            }
        }
    }
}


impl BspRenderer {
    /// Prepares the visible piece `start..=stop` of seg `seg_index`
    /// (scale, texture rows, light, which planes to mark), records a draw seg and runs
    /// the column loop. When the draw-seg pool is full the piece is skipped.
    #[verifier::rlimit(100)]
    #[verifier::spinoff_prover]
    pub fn store_wall_range(
        &self,
        ctx: &ViewContext,
        seg_index: usize,
        start: i32,
        stop: i32,
        rw_angle1: Angle,
        frame: &mut Frame,
        sp: &mut SubsectorPlanes,
    )
        requires
            ctx.wf(self),
            frame_ok(ctx, old(frame), old(sp)),
            seg_index < ctx.level.segs@.len(),
            0 <= start <= stop < ctx.view.width,
        ensures
            frame_ok(ctx, final(frame), final(sp)),
            frame_kept(old(frame), final(frame)),
            old(frame).draw_segs.segs@.len() < MAX_DRAW_SEGS ==> {
                &&& final(frame).draw_segs.segs@.len() == old(frame).draw_segs.segs@.len() + 1
                &&& final(frame).draw_segs.segs@.last().x1 == start
                &&& final(frame).draw_segs.segs@.last().x2 == stop
                &&& final(frame).draw_segs.segs@.last().seg_index == seg_index
                &&& 256 <= final(frame).draw_segs.segs@.last().scale1@ <= 64 * 65536
                &&& 256 <= final(frame).draw_segs.segs@.last().scale2@ <= 64 * 65536
                &&& final(frame).draw_segs.segs@.last().scale1@ == wall_scale_at(self, ctx, seg_index, rw_angle1, start as int)
                &&& final(frame).draw_segs.segs@.last().scale2@ == (if stop > start {
                    wall_scale_at(self, ctx, seg_index, rw_angle1, stop as int)
                } else {
                    wall_scale_at(self, ctx, seg_index, rw_angle1, start as int)
                })
                &&& final(frame).draw_segs.segs@.last().silhouette <= SILHOUETTE_BOTH
            },
            forall|x: int|
                0 <= x < RENDER_WIDTH && !(start <= x <= stop) ==> #[trigger] final(frame).planes.floor_clip@[x]
                    == old(frame).planes.floor_clip@[x],
            forall|x: int|
                0 <= x < RENDER_WIDTH && !(start <= x <= stop) ==> #[trigger] final(frame).planes.ceiling_clip@[x]
                    == old(frame).planes.ceiling_clip@[x],
            old(frame).draw_segs.segs@.len() >= MAX_DRAW_SEGS ==> *final(frame) == *old(frame),
            old(frame).draw_segs.segs@.len() < MAX_DRAW_SEGS ==> final(frame).draw_segs.segs@
                == old(frame).draw_segs.segs@.push(final(frame).draw_segs.segs@.last()),
    {
        if frame.draw_segs.segs.len() >= MAX_DRAW_SEGS {
            return;
        }
        let level = ctx.level;
        let view = ctx.view;
        let seg = level.segs[seg_index];
        let side = level.side_defs[seg.sidedef_index];
        let line = &level.line_defs[seg.linedef_index];
        let front = level.sectors[seg.front_sector_index];
        let back: Option<Sector> = match seg.back_sector_index {
            Some(b) => Some(level.sectors[b]),
            None => None,
        };
        let sky = level.sky_flat_number;
        let viewz = ctx.view_position.z;
        let zero = RealNumber::new_from_bits(0);
        let angle90 = Angle::angle90();
        let rw_normalangle = seg.angle.add(angle90);
        let mut offset_angle = rw_normalangle.sub(rw_angle1);
        if offset_angle.gt(Angle::angle180()) {
            offset_angle = offset_angle.neg();
        }
        if offset_angle.gt(angle90) {
            offset_angle = angle90;
        }
        let distangle = angle90.sub(offset_angle);
        let v1 = level.vertices[seg.vertex1_index];
        let v2 = level.vertices[seg.vertex2_index];
        let hyp = v1.distance(ctx.view_position.to_2d());
        let rw_distance = hyp.mul(distangle.sine());
        let scale1 = Self::scale_from_global_angle(
            ctx.view_angle.add(self.x_to_view_angle[start as usize]),
            ctx.view_angle,
            rw_normalangle,
            rw_distance,
            view,
        );
        let mut scale2 = scale1;
        let mut scale_step = zero;
        if stop > start {
            scale2 = Self::scale_from_global_angle(
                ctx.view_angle.add(self.x_to_view_angle[stop as usize]),
                ctx.view_angle,
                rw_normalangle,
                rw_distance,
                view,
            );
            scale_step = scale2.sub(scale1).div_int(stop - start);
        }
        let mut world_top = front.ceiling_height.sub(viewz);
        let mut world_bottom = front.floor_height.sub(viewz);
        let mut world_high = zero;
        let mut world_low = zero;
        let no_texture = TextureNumber(0);
        let mut mid_texture = no_texture;
        let mut top_texture = no_texture;
        let mut bottom_texture = no_texture;
        let mut mid_texture_mid = zero;
        let mut top_texture_mid = zero;
        let mut bottom_texture_mid = zero;
        let mut masked = false;
        let mut mark_floor;
        let mut mark_ceiling;
        let mut sil_top = false;
        let mut sil_bottom = false;
        let mut bsilheight = zero;
        let mut tsilheight = zero;
        let solid;
        match back {
            None => {
                solid = true;
                mid_texture = texture_translation_of(ctx.textures, side.mid_texture);
                mark_floor = true;
                mark_ceiling = true;
                mid_texture_mid = if line.dont_peg_bottom_texture() {
                    front.floor_height.add(texture_height_of(ctx.textures, side.mid_texture)).sub(viewz)
                } else {
                    world_top
                };
                mid_texture_mid = mid_texture_mid.add(side.row_offset);
                sil_top = true;
                sil_bottom = true;
                bsilheight = RealNumber::new_from_bits(i32::MAX);
                tsilheight = RealNumber::new_from_bits(i32::MIN);
            },
            Some(b) => {
                solid = false;
                if front.floor_height.gt(b.floor_height) {
                    sil_bottom = true;
                    bsilheight = front.floor_height;
                } else if b.floor_height.gt(viewz) {
                    sil_bottom = true;
                    bsilheight = RealNumber::new_from_bits(i32::MAX);
                }
                if front.ceiling_height.lt(b.ceiling_height) {
                    sil_top = true;
                    tsilheight = front.ceiling_height;
                } else if b.ceiling_height.lt(viewz) {
                    sil_top = true;
                    tsilheight = RealNumber::new_from_bits(i32::MIN);
                }
                if b.ceiling_height.le(front.floor_height) {
                    bsilheight = RealNumber::new_from_bits(i32::MAX);
                    sil_bottom = true;
                }
                if b.floor_height.ge(front.ceiling_height) {
                    tsilheight = RealNumber::new_from_bits(i32::MIN);
                    sil_top = true;
                }
                world_high = b.ceiling_height.sub(viewz);
                world_low = b.floor_height.sub(viewz);
                if front.ceiling_pic == sky && b.ceiling_pic == sky {
                    world_top = world_high;
                }
                mark_floor = world_low.to_bits() != world_bottom.to_bits() || b.floor_pic != front.floor_pic
                    || b.light_level != front.light_level;
                mark_ceiling = world_high.to_bits() != world_top.to_bits() || b.ceiling_pic
                    != front.ceiling_pic || b.light_level != front.light_level;
                if b.ceiling_height.le(front.floor_height) || b.floor_height.ge(front.ceiling_height) {
                    mark_floor = true;
                    mark_ceiling = true;
                }
                if world_high.lt(world_top) {
                    top_texture = texture_translation_of(ctx.textures, side.top_texture);
                    top_texture_mid = if line.dont_peg_top_texture() {
                        world_top
                    } else {
                        b.ceiling_height.add(texture_height_of(ctx.textures, side.top_texture)).sub(viewz)
                    };
                }
                if world_low.gt(world_bottom) {
                    bottom_texture = texture_translation_of(ctx.textures, side.bottom_texture);
                    bottom_texture_mid = if line.dont_peg_bottom_texture() {
                        world_top
                    } else {
                        world_low
                    };
                }
                top_texture_mid = top_texture_mid.add(side.row_offset);
                bottom_texture_mid = bottom_texture_mid.add(side.row_offset);
                masked = !side.mid_texture.is_zero();
            },
        }
        let textured = !mid_texture.is_zero() || !top_texture.is_zero() || !bottom_texture.is_zero() || masked;
        let mut rw_offset = zero;
        let mut center_angle = Angle::new(0);
        let mut light_level: usize = 0;
        if textured {
            let mut offset_angle = rw_normalangle.sub(rw_angle1);
            if offset_angle.gt(Angle::angle180()) {
                offset_angle = offset_angle.neg();
            }
            if offset_angle.gt(angle90) {
                offset_angle = angle90;
            }
            rw_offset = hyp.mul(offset_angle.sine());
            if rw_normalangle.sub(rw_angle1).lt(Angle::angle180()) {
                rw_offset = rw_offset.neg();
            }
            rw_offset = rw_offset.add(side.texture_offset).add(seg.offset);
            center_angle = angle90.add(ctx.view_angle).sub(rw_normalangle);
            let mut lightnum = (front.light_level >> LIGHT_SEG_SHIFT) as i64 + ctx.extra_light as i64;
            if v1.y.to_bits() == v2.y.to_bits() {
                lightnum = lightnum - 1;
            } else if v1.x.to_bits() == v2.x.to_bits() {
                lightnum = lightnum + 1;
            }
            light_level = clamp_i64(lightnum, 0, (LIGHT_LEVELS - 1) as i64) as usize;
        }
        if front.floor_height.ge(viewz) {
            mark_floor = false;
        }
        if front.ceiling_height.le(viewz) && front.ceiling_pic != sky {
            mark_ceiling = false;
        }
        world_top = world_top.shr(4);
        world_bottom = world_bottom.shr(4);
        let centery4 = view.centeryfrac.shr(4);
        let top_step = scale_step.mul(world_top).neg();
        let top_frac = centery4.sub(world_top.mul(scale1));
        let bottom_step = scale_step.mul(world_bottom).neg();
        let bottom_frac = centery4.sub(world_bottom.mul(scale1));
        let mut pix_high = zero;
        let mut pix_high_step = zero;
        let mut pix_low = zero;
        let mut pix_low_step = zero;
        if back.is_some() {
            world_high = world_high.shr(4);
            world_low = world_low.shr(4);
            if world_high.lt(world_top) {
                pix_high = centery4.sub(world_high.mul(scale1));
                pix_high_step = scale_step.mul(world_high).neg();
            }
            if world_low.gt(world_bottom) {
                pix_low = centery4.sub(world_low.mul(scale1));
                pix_low_step = scale_step.mul(world_low).neg();
            }
        }
        let mut ceiling_plane: Option<usize> = None;
        let mut floor_plane: Option<usize> = None;
        if mark_ceiling {
            match sp.ceiling {
                Some(p) => {
                    let checked = check_plane(&mut frame.planes, p, start, stop);
                    if checked.is_none() {
                        frame.plane_overflow = true;
                    }
                    sp.ceiling = checked;
                    ceiling_plane = checked;
                },
                None => {},
            }
        }
        if mark_floor {
            match sp.floor {
                Some(p) => {
                    let checked = check_plane(&mut frame.planes, p, start, stop);
                    if checked.is_none() {
                        frame.plane_overflow = true;
                    }
                    sp.floor = checked;
                    floor_plane = checked;
                },
                None => {},
            }
        }
        let mut seg_loop = SegLoop {
            center_angle,
            offset: rw_offset,
            distance: rw_distance,
            scale: scale1,
            scale_step,
            top_frac,
            top_step,
            bottom_frac,
            bottom_step,
            pix_high,
            pix_high_step,
            pix_low,
            pix_low_step,
            mid_texture,
            top_texture,
            bottom_texture,
            mid_texture_mid,
            top_texture_mid,
            bottom_texture_mid,
            mark_ceiling: ceiling_plane.is_some(),
            mark_floor: floor_plane.is_some(),
            textured,
            light_level,
        };
        let loop_planes = SubsectorPlanes { floor: floor_plane, ceiling: ceiling_plane };
        self.render_seg_loop(ctx, &mut seg_loop, start, stop, solid, frame, &loop_planes);
        let sprite_top_clip = if sil_top || masked {
            Some(vstd::slice::slice_to_vec(
                vstd::slice::slice_subrange(frame.planes.ceiling_clip.as_slice(), start as usize, stop as usize + 1),
            ))
        } else {
            None
        };
        let sprite_bottom_clip = if sil_bottom || masked {
            Some(vstd::slice::slice_to_vec(
                vstd::slice::slice_subrange(frame.planes.floor_clip.as_slice(), start as usize, stop as usize + 1),
            ))
        } else {
            None
        };
        if masked {
            if !sil_top {
                sil_top = true;
                tsilheight = RealNumber::new_from_bits(i32::MIN);
            }
            if !sil_bottom {
                sil_bottom = true;
                bsilheight = RealNumber::new_from_bits(i32::MAX);
            }
        }
        let silhouette = if sil_top && sil_bottom {
            SILHOUETTE_BOTH
        } else if sil_top {
            SILHOUETTE_TOP
        } else if sil_bottom {
            SILHOUETTE_BOTTOM
        } else {
            SILHOUETTE_NONE
        };
        frame.draw_segs.segs.push(DrawSeg {
            seg_index,
            x1: start,
            x2: stop,
            scale1,
            scale2,
            scale_step,
            silhouette,
            bsilheight,
            tsilheight,
            sprite_top_clip,
            sprite_bottom_clip,
        });
    }
}


/// For each position of the viewer around a box (row-major, 3 by 3), the two box corners
/// that bound it as seen from there: indices of x1, y1, x2, y2 into the box coordinates.
pub const CHECK_COORD: [[usize; 4]; 11] = [
    [3, 0, 2, 1],
    [3, 0, 2, 0],
    [3, 1, 2, 0],
    [0, 0, 0, 0],
    [2, 0, 2, 1],
    [0, 0, 0, 0],
    [3, 1, 3, 0],
    [0, 0, 0, 0],
    [2, 0, 3, 1],
    [2, 1, 3, 1],
    [2, 1, 3, 0],
];

impl BspRenderer {
    /// The screen column of a view angle already clipped to the field of view.
    fn angle_to_column(&self, angle: Angle) -> (r: Option<i32>)
        requires
            self.tables_ok(),
        ensures
            r matches Some(x) ==> 0 <= x <= self.view_width,
            r == column_of_angle(self, angle@),
    {
        let index = angle.add(Angle::angle90()).fine_index();
        if index < VIEW_ANGLES {
            Some(self.view_angle_to_x[index])
        } else {
            None
        }
    }

    /// Whether any part of the box may be visible, that is, its
    /// silhouette from the viewer spans a column that solid walls do not close yet.
    pub fn is_area_visible(&self, bounds: &BoundingBox, view_position: &Point2D, view_angle: Angle, solid_segs: &SolidSegs) -> (r: bool)
        requires
            self.tables_ok(),
            solid_segs.wf(),
        ensures
            bounds.left_bits() < view_position.x@ < bounds.right_bits() && bounds.bottom_bits()
                < view_position.y@ < bounds.top_bits() ==> r,
            r == box_visible(self, bounds, view_position, view_angle@, solid_segs.segs@),
    {
        let box_x: usize = if view_position.x.le(bounds.left()) {
            0
        } else if view_position.x.lt(bounds.right()) {
            1
        } else {
            2
        };
        let box_y: usize = if view_position.y.ge(bounds.top()) {
            0
        } else if view_position.y.gt(bounds.bottom()) {
            1
        } else {
            2
        };
        let box_position = box_y * 4 + box_x;
        if box_position == 5 {
            return true;
        }
        let corners = CHECK_COORD[box_position];
        let x1 = bounds.get(corners[0]);
        let y1 = bounds.get(corners[1]);
        let x2 = bounds.get(corners[2]);
        let y2 = bounds.get(corners[3]);
        let mut angle1 = Angle::from_points(&Point2D::new(x1, y1), view_position).sub(view_angle);
        let mut angle2 = Angle::from_points(&Point2D::new(x2, y2), view_position).sub(view_angle);
        let span = angle1.sub(angle2);
        if span.ge(Angle::angle180()) {
            return true;
        }
        let clip_angle = self.clip_angle;
        let double_clip = clip_angle.scale(2);
        let mut tspan = angle1.add(clip_angle);
        if tspan.gt(double_clip) {
            tspan = tspan.sub(double_clip);
            if tspan.ge(span) {
                return false;
            }
            angle1 = clip_angle;
        }
        tspan = clip_angle.sub(angle2);
        if tspan.gt(double_clip) {
            tspan = tspan.sub(double_clip);
            if tspan.ge(span) {
                return false;
            }
            angle2 = clip_angle.neg();
        }
        let sx1 = match self.angle_to_column(angle1) {
            Some(x) => x,
            None => return true,
        };
        let sx2 = match self.angle_to_column(angle2) {
            Some(x) => x,
            None => return true,
        };
        if sx1 == sx2 {
            return false;
        }
        let sx2 = sx2 - 1;
        let n = solid_segs.segs.len();
        let mut k: usize = 0;
        while solid_segs.segs[k].last < sx2
            invariant
                solid_segs.wf(),
                n == solid_segs.segs@.len(),
                k < n,
                forall|j: int| 0 <= j < k ==> (#[trigger] solid_segs.segs@[j]).last < sx2,
            decreases n - k,
        {
            k = k + 1;
        }
        if sx1 >= solid_segs.segs[k].first && sx2 <= solid_segs.segs[k].last {
            return false;
        }
        proof {
            let sg = solid_segs.segs@;
            assert forall|j: int| 0 <= j < sg.len() implies !((#[trigger] sg[j]).first <= sx1 && sx2 <= sg[j].last) by {
                if j > k {
                    assert(sg[k as int].last + 1 < sg[j].first);
                    assert(sg[k as int].first <= sg[k as int].last);
                }
            }
        }
        true
    }

    /// Stores the pieces of `first..=last` that no solid wall closes, without closing them.
    fn clip_pass_wall_segment(&self, ctx: &ViewContext, seg_index: usize, first: i32, last: i32, rw_angle: Angle, frame: &mut Frame, sp: &mut SubsectorPlanes)
        requires
            ctx.wf(self),
            frame_ok(ctx, old(frame), old(sp)),
            seg_index < ctx.level.segs@.len(),
            0 <= first <= last < ctx.view.width,
        ensures
            frame_ok(ctx, final(frame), final(sp)),
            frame_kept(old(frame), final(frame)),
            pieces_stored(old(frame), final(frame), seg_index, first as int, last as int),
    {
        let fragments = frame.solid_segs.visible_fragments(first, last);
        let ghost n0 = frame.draw_segs.segs@.len() as int;
        let mut k: usize = 0;
        while k < fragments.len()
            invariant
                ctx.wf(self),
                frame_ok(ctx, frame, sp),
                frame_kept(old(frame), frame),
                seg_index < ctx.level.segs@.len(),
                0 <= first <= last < ctx.view.width,
                k <= fragments@.len(),
                n0 == old(frame).draw_segs.segs@.len(),
                solid_seg::uncovered_pieces(old(frame).solid_segs.segs@, first as int, last as int, fragments@),
                frame.draw_segs.segs@.len() == n0 + stored_count(k as int, n0),
                forall|i: int| 0 <= i < n0 ==> #[trigger] frame.draw_segs.segs@[i] == old(frame).draw_segs.segs@[i],
                forall|j: int| 0 <= j < stored_count(k as int, n0) ==> {
                    let d = #[trigger] frame.draw_segs.segs@[n0 + j];
                    d.x1 == fragments@[j].first && d.x2 == fragments@[j].last && d.seg_index == seg_index
                },
            decreases fragments@.len() - k,
        {
            let piece = fragments[k];
            assert(first <= piece.first && piece.first <= piece.last && piece.last <= last);
            let ghost before = frame.draw_segs.segs@;
            self.store_wall_range(ctx, seg_index, piece.first, piece.last, rw_angle, frame, sp);
            proof {
                if before.len() < MAX_DRAW_SEGS {
                    assert forall|i: int| 0 <= i < n0 implies #[trigger] frame.draw_segs.segs@[i] == old(frame).draw_segs.segs@[i] by {
                        assert(frame.draw_segs.segs@[i] == before[i]);
                    }
                    assert forall|j: int| 0 <= j < stored_count(k + 1, n0) implies {
                        let d = #[trigger] frame.draw_segs.segs@[n0 + j];
                        d.x1 == fragments@[j].first && d.x2 == fragments@[j].last && d.seg_index == seg_index
                    } by {
                        if j < stored_count(k as int, n0) {
                            assert(frame.draw_segs.segs@[n0 + j] == before[n0 + j]);
                        }
                    }
                }
            }
            k = k + 1;
        }
    }

    /// Stores the pieces of `first..=last` that no solid wall closes, then closes them all.
    fn clip_solid_wall_segment(&self, ctx: &ViewContext, seg_index: usize, first: i32, last: i32, rw_angle: Angle, frame: &mut Frame, sp: &mut SubsectorPlanes)
        requires
            ctx.wf(self),
            frame_ok(ctx, old(frame), old(sp)),
            seg_index < ctx.level.segs@.len(),
            0 <= first <= last < ctx.view.width,
        ensures
            frame_ok(ctx, final(frame), final(sp)),
            final(frame).visited == old(frame).visited,
            final(frame).visited_flags == old(frame).visited_flags,
            pieces_stored(old(frame), final(frame), seg_index, first as int, last as int),
            forall|x: int| #[trigger] solid_seg::covered(final(frame).solid_segs.segs@, x) <==> (solid_seg::covered(
                old(frame).solid_segs.segs@, x) || first <= x <= last),
    {
        self.clip_pass_wall_segment(ctx, seg_index, first, last, rw_angle, frame, sp);
        frame.solid_segs.add_solid(first, last);
    }

    /// Culls a seg that faces away or lies outside the field of view, then
    /// clips it against the closed columns as a solid wall or as a window.
    fn add_line(&self, ctx: &ViewContext, seg_index: usize, frame: &mut Frame, sp: &mut SubsectorPlanes)
        requires
            ctx.wf(self),
            frame_ok(ctx, old(frame), old(sp)),
            seg_index < ctx.level.segs@.len(),
        ensures
            frame_ok(ctx, final(frame), final(sp)),
            final(frame).visited == old(frame).visited,
            final(frame).visited_flags == old(frame).visited_flags,
            forall|x: int| #[trigger] solid_seg::covered(old(frame).solid_segs.segs@, x) ==> solid_seg::covered(final(frame).solid_segs.segs@, x),
            match line_columns(self, ctx, seg_index) {
                None => *final(frame) == *old(frame),
                Some((x1, x2)) => if line_kind(ctx, seg_index) == 0 {
                    &&& pieces_stored(old(frame), final(frame), seg_index, x1, x2 - 1)
                    &&& forall|x: int| #[trigger] solid_seg::covered(final(frame).solid_segs.segs@, x)
                        <==> (solid_seg::covered(old(frame).solid_segs.segs@, x) || x1 <= x <= x2 - 1)
                } else if line_kind(ctx, seg_index) == 1 {
                    &&& pieces_stored(old(frame), final(frame), seg_index, x1, x2 - 1)
                    &&& final(frame).solid_segs == old(frame).solid_segs
                } else {
                    *final(frame) == *old(frame)
                },
            },
    {
        let level = ctx.level;
        let seg = level.segs[seg_index];
        let position = ctx.view_position.to_2d();
        let mut angle1 = Angle::from_points(&level.vertices[seg.vertex1_index], &position);
        let mut angle2 = Angle::from_points(&level.vertices[seg.vertex2_index], &position);
        let span = angle1.sub(angle2);
        if span.ge(Angle::angle180()) {
            return;
        }
        let rw_angle1 = angle1;
        angle1 = angle1.sub(ctx.view_angle);
        angle2 = angle2.sub(ctx.view_angle);
        let clip_angle = self.clip_angle;
        let double_clip = clip_angle.scale(2);
        let mut tspan = angle1.add(clip_angle);
        if tspan.gt(double_clip) {
            tspan = tspan.sub(double_clip);
            if tspan.ge(span) {
                return;
            }
            angle1 = clip_angle;
        }
        tspan = clip_angle.sub(angle2);
        if tspan.gt(double_clip) {
            tspan = tspan.sub(double_clip);
            if tspan.ge(span) {
                return;
            }
            angle2 = clip_angle.neg();
        }
        let x1 = match self.angle_to_column(angle1) {
            Some(x) => x,
            None => return,
        };
        let x2 = match self.angle_to_column(angle2) {
            Some(x) => x,
            None => return,
        };
        if x1 >= x2 {
            return;
        }
        let front = level.sectors[seg.front_sector_index];
        match seg.back_sector_index {
            None => self.clip_solid_wall_segment(ctx, seg_index, x1, x2 - 1, rw_angle1, frame, sp),
            Some(b) => {
                let back = level.sectors[b];
                if Self::is_closed_door(&back, &front) {
                    self.clip_solid_wall_segment(ctx, seg_index, x1, x2 - 1, rw_angle1, frame, sp);
                } else if Self::is_window(&back, &front) {
                    self.clip_pass_wall_segment(ctx, seg_index, x1, x2 - 1, rw_angle1, frame, sp);
                } else if back.ceiling_pic == front.ceiling_pic && back.floor_pic == front.floor_pic
                    && back.light_level == front.light_level
                    && level.side_defs[seg.sidedef_index].mid_texture.is_zero() {
                    return;
                } else {
                    self.clip_pass_wall_segment(ctx, seg_index, x1, x2 - 1, rw_angle1, frame, sp);
                }
            },
        }
    }

    /// The back sector closes the opening: its ceiling is at or below the front floor, or
    /// its floor at or above the front ceiling.
    pub fn is_closed_door(back_sector: &Sector, front_sector: &Sector) -> (r: bool)
        ensures
            r == (back_sector.ceiling_height@ <= front_sector.floor_height@
                || back_sector.floor_height@ >= front_sector.ceiling_height@),
    {
        back_sector.ceiling_height.le(front_sector.floor_height) || back_sector.floor_height.ge(
            front_sector.ceiling_height,
        )
    }

    /// The two sectors differ in floor or ceiling height.
    pub fn is_window(back_sector: &Sector, front_sector: &Sector) -> (r: bool)
        ensures
            r == (back_sector.ceiling_height@ != front_sector.ceiling_height@
                || back_sector.floor_height@ != front_sector.floor_height@),
    {
        back_sector.ceiling_height.to_bits() != front_sector.ceiling_height.to_bits()
            || back_sector.floor_height.to_bits() != front_sector.floor_height.to_bits()
    }

    /// Finds the floor and ceiling planes of the sub-sector's sector and
    /// adds its segs; a sub-sector already visited this frame is skipped.
    fn render_subsector(&self, ctx: &ViewContext, subsector_index: usize, frame: &mut Frame)
        requires
            ctx.wf(self),
            old(frame).wf(*ctx.view, ctx.level.sub_sectors@.len() as int),
            subsector_index < ctx.level.sub_sectors@.len(),
        ensures
            final(frame).wf(*ctx.view, ctx.level.sub_sectors@.len() as int),
            final(frame).visited@ == (if old(frame).visited_flags@[subsector_index as int] {
                old(frame).visited@
            } else {
                old(frame).visited@.push(subsector_index)
            }),
            forall|x: int| #[trigger] solid_seg::covered(old(frame).solid_segs.segs@, x) ==> solid_seg::covered(final(frame).solid_segs.segs@, x),
            !old(frame).visited_flags@[subsector_index as int] ==> subsector_closed(self, ctx, subsector_index, final(frame)),
    {
        if frame.visited_flags[subsector_index] {
            return;
        }
        let ghost n = ctx.level.sub_sectors@.len() as int;
        let ghost before = frame.visited@;
        let ghost flags_before = frame.visited_flags@;
        frame.visited_flags.set(subsector_index, true);
        frame.visited.push(subsector_index);
        proof {
            assert(!before.contains(subsector_index)) by {
                if before.contains(subsector_index) {
                    let k = choose|k: int| 0 <= k < before.len() && before[k] == subsector_index;
                    assert(flags_before[before[k] as int]);
                }
            }
            assert forall|a: int, b: int| 0 <= a < b < frame.visited@.len() implies frame.visited@[a] != frame.visited@[b] by {
                if b == frame.visited@.len() - 1 {
                    assert(frame.visited@[a] == before[a]);
                    assert(before.contains(before[a]));
                }
            }
            assert forall|k: int| 0 <= k < frame.visited@.len() implies (#[trigger] frame.visited@[k]) < n
                && frame.visited_flags@[frame.visited@[k] as int] by {
                if k < before.len() {
                    assert(frame.visited@[k] == before[k]);
                }
            }
            assert forall|q: int| 0 <= q < n && #[trigger] frame.visited_flags@[q] implies frame.visited@.contains(q as usize) by {
                if q == subsector_index {
                    assert(frame.visited@[before.len() as int] == q);
                } else {
                    assert(flags_before[q]);
                    let k = choose|k: int| 0 <= k < before.len() && before[k] == q as usize;
                    assert(frame.visited@[k] == before[k]);
                }
            }
        }
        let level = ctx.level;
        let subsector = level.sub_sectors[subsector_index];
        let front = level.sectors[subsector.sector_index];
        let viewz = ctx.view_position.z;
        let sky = level.sky_flat_number;
        let floor = if front.floor_height.lt(viewz) {
            let found = find_plane_index(sky, front.floor_height, front.floor_pic, front.light_level, &mut frame.planes);
            if found.is_none() {
                frame.plane_overflow = true;
            }
            found
        } else {
            None
        };
        let ceiling = if front.ceiling_height.gt(viewz) || front.ceiling_pic == sky {
            let found = find_plane_index(sky, front.ceiling_height, front.ceiling_pic, front.light_level, &mut frame.planes);
            if found.is_none() {
                frame.plane_overflow = true;
            }
            found
        } else {
            None
        };
        let mut sp = SubsectorPlanes { floor, ceiling };
        let n_segs = level.segs.len();
        proof {
            assert(level.sub_sectors@[subsector_index as int].first_seg_index + level.sub_sectors@[subsector_index as int].num_segs <= n_segs);
        }
        let end = subsector.first_seg_index + subsector.num_segs;
        let mut i = subsector.first_seg_index;
        let ghost visited_now = frame.visited@;
        let ghost start_frame = *frame;
        assert(forall|x: int| #[trigger] solid_seg::covered(old(frame).solid_segs.segs@, x) ==> solid_seg::covered(start_frame.solid_segs.segs@, x));
        while i < end
            invariant
                ctx.wf(self),
                frame_ok(ctx, frame, &sp),
                frame.visited@ == visited_now,
                end <= ctx.level.segs@.len(),
                subsector.first_seg_index <= i <= end,
                end == subsector.first_seg_index + subsector.num_segs,
                subsector == ctx.level.sub_sectors@[subsector_index as int],
                forall|x: int| #[trigger] solid_seg::covered(old(frame).solid_segs.segs@, x) ==> solid_seg::covered(frame.solid_segs.segs@, x),
                forall|k: int| subsector.first_seg_index <= k < i ==> #[trigger] seg_closed(self, ctx, k as usize, frame),
            decreases end - i,
        {
            let ghost before = *frame;
            self.add_line(ctx, i, frame, &mut sp);
            proof {
                assert forall|k: int| subsector.first_seg_index <= k < i + 1 implies #[trigger] seg_closed(self, ctx, k as usize, frame) by {
                    if k < i {
                        assert(seg_closed(self, ctx, k as usize, &before));
                    }
                }
            }
            i = i + 1;
        }
    }

    /// Walks the tree front to back from a node or a sub-sector
    /// reference, entering the back child only when its box may be visible.
    fn render_bsp_node(&self, ctx: &ViewContext, node_index: usize, frame: &mut Frame)
        requires
            ctx.wf(self),
            old(frame).wf(*ctx.view, ctx.level.sub_sectors@.len() as int),
            node_index >= NF_SUBSECTOR ==> node_index < 0x10000 && node_index - NF_SUBSECTOR < ctx.level.sub_sectors@.len(),
            node_index < NF_SUBSECTOR ==> node_index < ctx.level.nodes@.len(),
        ensures
            final(frame).wf(*ctx.view, ctx.level.sub_sectors@.len() as int),
            final(frame).visited@.len() >= old(frame).visited@.len(),
            final(frame).visited@.subrange(0, old(frame).visited@.len() as int) == old(frame).visited@,
            forall|k: int| old(frame).visited@.len() <= k < final(frame).visited@.len() ==> in_subtree(
                ctx.level,
                node_index as int,
                #[trigger] final(frame).visited@[k] as int,
            ),
            node_index < NF_SUBSECTOR ==> visits_front_first(ctx.level, ctx.view_position, node_index, old(frame).visited@.len() as int, final(frame).visited@),
        decreases (if node_index >= NF_SUBSECTOR { 0 } else { node_index + 1 }),
    {
        if node_index >= NF_SUBSECTOR {
            self.render_subsector(ctx, node_index - NF_SUBSECTOR, frame);
            return;
        }
        let ghost v0 = frame.visited@;
        let node = &ctx.level.nodes[node_index];
        proof {
            assert(crate::level::child_ok(ctx.level.nodes@[node_index as int].children[0], node_index as int, ctx.level.sub_sectors@.len() as int));
            assert(crate::level::child_ok(ctx.level.nodes@[node_index as int].children[1], node_index as int, ctx.level.sub_sectors@.len() as int));
        }
        let side = point_on_side(&ctx.view_position, node);
        self.render_bsp_node(ctx, node.children[side], frame);
        let ghost v1 = frame.visited@;
        let other = 1 - side;
        if self.is_area_visible(&node.bbox[other], &ctx.view_position.to_2d(), ctx.view_angle, &frame.solid_segs) {
            self.render_bsp_node(ctx, node.children[other], frame);
        }
        proof {
            let n = ctx.level.nodes@[node_index as int];
            let v2 = frame.visited@;
            assert(v2.subrange(0, v1.len() as int) == v1);
            assert(v1.subrange(0, v0.len() as int) == v0);
            assert(v2.subrange(0, v0.len() as int) =~= v0) by {
                assert forall|k: int| 0 <= k < v0.len() implies v2[k] == v0[k] by {
                    assert(v2[k] == v2.subrange(0, v1.len() as int)[k]);
                    assert(v1[k] == v1.subrange(0, v0.len() as int)[k]);
                }
            }
            assert forall|k: int| v0.len() <= k < v2.len() implies in_subtree(ctx.level, node_index as int, #[trigger] v2[k] as int) by {
                if k < v1.len() {
                    assert(v2[k] == v2.subrange(0, v1.len() as int)[k]);
                    assert(in_subtree(ctx.level, n.children[side as int] as int, v1[k] as int));
                } else {
                    assert(in_subtree(ctx.level, n.children[other as int] as int, v2[k] as int));
                }
            }
            assert(front_then_back(ctx.level, ctx.view_position, node_index, v0.len() as int, v1.len() as int, v2)) by {
                assert forall|k: int| v0.len() <= k < v1.len() implies in_subtree(ctx.level, n.children[side as int] as int, #[trigger] v2[k] as int) by {
                    assert(v2[k] == v2.subrange(0, v1.len() as int)[k]);
                }
            }
        }
    }

    /// Draws the level as seen by the player into a fresh frame,
    /// which holds the planes, draw segs and wall columns, and the sub-sectors in the
    /// order they were visited, none twice.
    pub fn render_player_view(&self, player: &Player, level: &Level, view: &ViewWindow, textures: &TextureData) -> (r: Frame)
        requires
            level.wf(),
            view.wf(),
            self.wf(*view),
        ensures
            r.wf(*view, level.sub_sectors@.len() as int),
            r.visited@.no_duplicates(),
            level.nodes@.len() <= NF_SUBSECTOR,
            forall|k: int| 0 <= k < r.visited@.len() ==> in_subtree(
                level,
                (if level.nodes@.len() == 0 { NF_SUBSECTOR as int } else { level.nodes@.len() - 1 }),
                #[trigger] r.visited@[k] as int,
            ),
            level.nodes@.len() > 0 ==> visits_front_first(
                level,
                Point3D::spec_new(player.x, player.y, player.viewz),
                (level.nodes@.len() - 1) as usize,
                0,
                r.visited@,
            ),
            forall|k: int| 0 <= k < r.columns@.len() ==> column_in_view(#[trigger] r.columns@[k], *view),
            forall|p: int| 0 <= p < r.planes.visible_planes@.len() ==> (#[trigger] r.planes.visible_planes@[p]).wf(),
    {
        let mut frame = Frame::new(view, level.sub_sectors.len());
        let ctx = ViewContext {
            level,
            textures,
            view,
            view_position: Point3D::new(player.x, player.y, player.viewz),
            view_angle: player.angle,
            extra_light: player.extra_light,
        };
        let n = level.nodes.len();
        if n == 0 {
            self.render_bsp_node(&ctx, NF_SUBSECTOR, &mut frame);
        } else {
            self.render_bsp_node(&ctx, n - 1, &mut frame);
        }
        frame
    }
}


/// Shift from a view angle to a column of the sky texture.
pub const ANGLE_TO_SKY_SHIFT: u32 = 22;

/// One horizontal run of a floor or ceiling handed to the span drawer: row `y`, columns
/// `x1..=x2` of plane `plane`, at `distance`, lit by color map `color_map`.
#[derive(Copy, Clone, Debug)]
pub struct Span {
    pub y: i32,
    pub x1: i32,
    pub x2: i32,
    pub plane: usize,
    pub distance: RealNumber,
    pub color_map: usize,
}

/// What drawing the planes hands on: spans of floors and ceilings, and sky columns.
pub struct PlaneDraws {
    pub spans: Vec<Span>,
    pub sky_columns: Vec<WallColumn>,
}

/// A span of plane `s.plane` (not a sky plane) at the distance of its row, `|height - viewz|`
/// over the rows from the view centre, lit by the light table entry of the plane's light
/// level and that distance.
pub open spec fn span_lit(s: Span, planes: Seq<VisPlane>, view: ViewWindow, viewz: i32, z_light: Seq<usize>, sky: FlatNumber) -> bool {
    let pl = planes[s.plane as int];
    let dy = if s.y - view.centery < 0 { view.centery - s.y } else { s.y - view.centery };
    let h0 = wrap_i32(pl.height@ - viewz);
    let h = if h0 < 0 { wrap_i32(-h0) } else { h0 };
    let distance = real_div_spec(h, (dy * 65536) as i32);
    let l = (pl.light_level >> 4u32) as int;
    let level = if l < 0 { 0 } else if l > 15 { 15 } else { l };
    let d = (distance >> 20u32) as int;
    let depth = if d < 0 { 0 } else if d > 127 { 127 } else { d };
    &&& pl.picnum != sky
    &&& s.distance@ == distance
    &&& s.color_map == z_light[level * 128 + depth]
}

/// A sky column shows rows `top[x]..=bottom[x]` of a sky plane, sampling the sky texture at
/// the column's view angle.
pub open spec fn sky_column_of(c: WallColumn, planes: Seq<VisPlane>, sky: FlatNumber, sky_texture: TextureNumber, renderer: &BspRenderer, view_angle: u32) -> bool {
    &&& exists|p: int| 0 <= p < planes.len() && (#[trigger] planes[p]).picnum == sky && planes[p].top@[c.x as int] == c.yl
        && planes[p].bottom@[c.x as int] == c.yh
    &&& c.texture == sky_texture
    &&& c.texture_column == ((vstd::wrapping::u32_specs::wrapping_add(view_angle, renderer.x_to_view_angle@[c.x as int]@) >> 22u32) as i32)
}

impl PlaneDraws {
    pub open spec fn wf(&self, view_height: int, n_planes: int) -> bool {
        &&& forall|k: int| 0 <= k < self.spans@.len() ==> {
            let s = #[trigger] self.spans@[k];
            &&& 0 <= s.y < view_height
            &&& 0 <= s.x1 <= s.x2 < RENDER_WIDTH
            &&& s.plane < n_planes
            &&& s.color_map < 32
        }
        &&& forall|k: int| 0 <= k < self.sky_columns@.len() ==> {
            let c = #[trigger] self.sky_columns@[k];
            &&& 0 <= c.x < RENDER_WIDTH
            &&& 0 <= c.yl <= c.yh
        }
    }
}

/// The column of a plane, or an empty one outside the screen.
fn plane_column(plane: &VisPlane, x: i32) -> (r: (i32, i32))
    requires
        plane.wf(),
{
    if 0 <= x && x < RENDER_WIDTH as i32 {
        (plane.top[x as usize] as i32, plane.bottom[x as usize] as i32)
    } else {
        (EMPTY_COLUMN as i32, 0)
    }
}

impl BspRenderer {
    /// The span of row `y` of plane `p` that ends at column `x2`.
    fn plane_span(
        &self,
        plane: &VisPlane,
        p: usize,
        y: i32,
        x1: i32,
        x2: i32,
        view: &ViewWindow,
        viewz: RealNumber,
        light_table: &LightTable,
        draws: &mut PlaneDraws,
        n_planes: Ghost<int>,
        planes: Ghost<Seq<VisPlane>>,
        sky: FlatNumber,
    )
        requires
            view.wf(),
            old(draws).wf(view.height as int, n_planes@),
            p < n_planes@,
            n_planes@ == planes@.len(),
            planes@[p as int] == *plane,
            plane.picnum != sky,
            forall|k: int| 0 <= k < old(draws).spans@.len() ==> span_lit(#[trigger] old(draws).spans@[k], planes@, *view, viewz@, light_table.z_light@, sky),
            light_table.z_light@.len() == 2048,
            forall|k: int| 0 <= k < 2048 ==> #[trigger] light_table.z_light@[k] < 32,
        ensures
            final(draws).wf(view.height as int, n_planes@),
            final(draws).sky_columns == old(draws).sky_columns,
            forall|k: int| 0 <= k < final(draws).spans@.len() ==> span_lit(#[trigger] final(draws).spans@[k], planes@, *view, viewz@, light_table.z_light@, sky),
    {
        if y < 0 || y >= view.height as i32 || x1 < 0 || x1 > x2 || x2 >= RENDER_WIDTH as i32 {
            return;
        }
        let dy = y as i64 - view.centery as i64;
        let dy = if dy < 0 { -dy } else { dy };
        let height = plane.height.sub(viewz);
        let height = if height.is_negative() { height.neg() } else { height };
        let distance = height.div(RealNumber::new(dy as i32));
        let level = plane.light_level >> 4u32;
        let level: usize = if level < 0 { 0 } else if level > 15 { 15 } else { level as usize };
        let depth = distance.shr(20).to_bits();
        let depth: usize = if depth < 0 { 0 } else if depth > 127 { 127 } else { depth as usize };
        let color_map = light_table.z_light[level * 128 + depth];
        let ghost before = draws.spans@;
        draws.spans.push(Span { y, x1, x2, plane: p, distance, color_map });
        proof {
            assert forall|k: int| 0 <= k < draws.spans@.len() implies {
                let s = #[trigger] draws.spans@[k];
                &&& 0 <= s.y < view.height
                &&& 0 <= s.x1 <= s.x2 < RENDER_WIDTH
                &&& s.plane < n_planes@
                &&& s.color_map < 32
            } by {
                if k < before.len() {
                    assert(draws.spans@[k] == before[k]);
                }
            }
            assert forall|k: int| 0 <= k < draws.spans@.len() implies span_lit(#[trigger] draws.spans@[k], planes@, *view, viewz@, light_table.z_light@, sky) by {
                if k < before.len() {
                    assert(draws.spans@[k] == before[k]);
                }
            }
        }
    }

    /// Turns each visplane into horizontal spans, row by row, joining
    /// the columns where a row stays inside the plane; sky planes become sky columns
    /// picked by view angle.
    pub fn draw_planes(
        &self,
        frame: &Frame,
        view: &ViewWindow,
        viewz: RealNumber,
        view_angle: Angle,
        sky_flat: FlatNumber,
        sky_texture: TextureNumber,
        light_table: &LightTable,
    ) -> (r: PlaneDraws)
        requires
            frame.planes.wf(),
            view.wf(),
            self.wf(*view),
            light_table.z_light@.len() == 2048,
            forall|k: int| 0 <= k < 2048 ==> #[trigger] light_table.z_light@[k] < 32,
        ensures
            r.wf(view.height as int, frame.planes.visible_planes@.len() as int),
            forall|k: int| 0 <= k < r.spans@.len() ==> span_lit(#[trigger] r.spans@[k], frame.planes.visible_planes@, *view, viewz@,
                light_table.z_light@, sky_flat),
            forall|k: int| 0 <= k < r.sky_columns@.len() ==> sky_column_of(#[trigger] r.sky_columns@[k], frame.planes.visible_planes@,
                sky_flat, sky_texture, self, view_angle@),
    {
        let n = frame.planes.visible_planes.len();
        let ghost n_planes = n as int;
        let mut draws = PlaneDraws { spans: Vec::new(), sky_columns: Vec::new() };
        let mut p: usize = 0;
        while p < n
            invariant
                p <= n,
                n == frame.planes.visible_planes@.len(),
                n_planes == n,
                view.wf(),
                frame.planes.wf(),
                self.wf(*view),
                light_table.z_light@.len() == 2048,
                forall|k: int| 0 <= k < 2048 ==> #[trigger] light_table.z_light@[k] < 32,
                draws.wf(view.height as int, n_planes),
                forall|k: int| 0 <= k < draws.spans@.len() ==> span_lit(#[trigger] draws.spans@[k], frame.planes.visible_planes@, *view, viewz@,
                    light_table.z_light@, sky_flat),
                forall|k: int| 0 <= k < draws.sky_columns@.len() ==> sky_column_of(#[trigger] draws.sky_columns@[k], frame.planes.visible_planes@,
                    sky_flat, sky_texture, self, view_angle@),
            decreases n - p,
        {
            let plane = &frame.planes.visible_planes[p];
            let lo = if plane.min_x < 0 { 0 } else { plane.min_x };
            let hi = if plane.max_x >= RENDER_WIDTH as i32 { RENDER_WIDTH as i32 - 1 } else { plane.max_x };
            if plane.picnum == sky_flat {
                let mut x = lo;
                while x <= hi
                    invariant
                        0 <= lo <= x,
                        hi < RENDER_WIDTH,
                        x <= hi + 1 || x == lo,
                        plane.wf(),
                        self.wf(*view),
                        draws.wf(view.height as int, n_planes),
                        plane.picnum == sky_flat,
                        forall|k: int| 0 <= k < draws.spans@.len() ==> span_lit(#[trigger] draws.spans@[k], frame.planes.visible_planes@, *view, viewz@,
                            light_table.z_light@, sky_flat),
                        forall|k: int| 0 <= k < draws.sky_columns@.len() ==> sky_column_of(#[trigger] draws.sky_columns@[k], frame.planes.visible_planes@,
                            sky_flat, sky_texture, self, view_angle@),
                        n_planes == frame.planes.visible_planes@.len(),
                        p < frame.planes.visible_planes@.len(),
                        *plane == frame.planes.visible_planes@[p as int],
                forall|k: int| 0 <= k < draws.spans@.len() ==> span_lit(#[trigger] draws.spans@[k], frame.planes.visible_planes@, *view, viewz@,
                    light_table.z_light@, sky_flat),
                forall|k: int| 0 <= k < draws.sky_columns@.len() ==> sky_column_of(#[trigger] draws.sky_columns@[k], frame.planes.visible_planes@,
                    sky_flat, sky_texture, self, view_angle@),
                    decreases hi + 1 - x,
                {
                    let top = plane.top[x as usize];
                    let bottom = plane.bottom[x as usize];
                    if top != EMPTY_COLUMN && top <= bottom && (x as usize) < self.x_to_view_angle.len() {
                        let angle = view_angle.add(self.x_to_view_angle[x as usize]).to_u32() >> ANGLE_TO_SKY_SHIFT;
                        let ghost before = draws.sky_columns@;
                        draws.sky_columns.push(WallColumn {
                            x,
                            yl: top as i32,
                            yh: bottom as i32,
                            texture: sky_texture,
                            texture_column: angle as i32,
                            texture_mid: RealNumber::new(100),
                            light_level: 0,
                            light_index: 0,
                            iscale: RealNumber::new(1),
                        });
                        proof {
                            assert forall|k: int| 0 <= k < draws.sky_columns@.len() implies {
                                let c = #[trigger] draws.sky_columns@[k];
                                &&& 0 <= c.x < RENDER_WIDTH
                                &&& 0 <= c.yl <= c.yh
                            } by {
                                if k < before.len() {
                                    assert(draws.sky_columns@[k] == before[k]);
                                }
                            }
                            assert forall|k: int| 0 <= k < draws.sky_columns@.len() implies sky_column_of(#[trigger] draws.sky_columns@[k],
                                frame.planes.visible_planes@, sky_flat, sky_texture, self, view_angle@) by {
                                if k < before.len() {
                                    assert(draws.sky_columns@[k] == before[k]);
                                } else {
                                    let pl = frame.planes.visible_planes@[p as int];
                                    assert(pl.picnum == sky_flat);
                                    assert(pl.top@[x as int] == top && pl.bottom@[x as int] == bottom);
                                    assert(0 <= p < frame.planes.visible_planes@.len() && (frame.planes.visible_planes@[p as int]).picnum == sky_flat
                                        && frame.planes.visible_planes@[p as int].top@[draws.sky_columns@[k].x as int] == draws.sky_columns@[k].yl
                                        && frame.planes.visible_planes@[p as int].bottom@[draws.sky_columns@[k].x as int] == draws.sky_columns@[k].yh);
                                }
                            }
                        }
                    }
                    x = x + 1;
                }
            } else if lo <= hi {
                let mut span_start: Vec<i32> = Vec::new();
                let mut k: usize = 0;
                while k < 256
                    invariant
                        k <= 256,
                        span_start@.len() == k,
                    decreases 256 - k,
                {
                    span_start.push(0);
                    k = k + 1;
                }
                let mut x = lo;
                while x <= hi + 1
                    invariant
                        0 <= lo <= x,
                        view.wf(),
                        lo <= hi < RENDER_WIDTH,
                        x <= hi + 2,
                        p < n_planes,
                        plane.wf(),
                        plane.picnum != sky_flat,
                        span_start@.len() == 256,
                        forall|k: int| 0 <= k < draws.spans@.len() ==> span_lit(#[trigger] draws.spans@[k], frame.planes.visible_planes@, *view, viewz@,
                            light_table.z_light@, sky_flat),
                        forall|k: int| 0 <= k < draws.sky_columns@.len() ==> sky_column_of(#[trigger] draws.sky_columns@[k], frame.planes.visible_planes@,
                            sky_flat, sky_texture, self, view_angle@),
                        n_planes == frame.planes.visible_planes@.len(),
                        p < frame.planes.visible_planes@.len(),
                        *plane == frame.planes.visible_planes@[p as int],
                        light_table.z_light@.len() == 2048,
                        forall|q: int| 0 <= q < 2048 ==> #[trigger] light_table.z_light@[q] < 32,
                        draws.wf(view.height as int, n_planes),
                forall|k: int| 0 <= k < draws.spans@.len() ==> span_lit(#[trigger] draws.spans@[k], frame.planes.visible_planes@, *view, viewz@,
                    light_table.z_light@, sky_flat),
                forall|k: int| 0 <= k < draws.sky_columns@.len() ==> sky_column_of(#[trigger] draws.sky_columns@[k], frame.planes.visible_planes@,
                    sky_flat, sky_texture, self, view_angle@),
                    decreases hi + 2 - x,
                {
                    let (mut t1, mut b1) = if x == lo { (EMPTY_COLUMN as i32, 0) } else { plane_column(plane, x - 1) };
                    let (mut t2, mut b2) = if x == hi + 1 { (EMPTY_COLUMN as i32, 0) } else { plane_column(plane, x) };
                    while t1 < t2 && t1 <= b1 && 0 <= t1 && t1 < 256
                        invariant
                            span_start@.len() == 256,
                            0 <= x,
                            view.wf(),
                            p < n_planes,
                            light_table.z_light@.len() == 2048,
                            forall|q: int| 0 <= q < 2048 ==> #[trigger] light_table.z_light@[q] < 32,
                            draws.wf(view.height as int, n_planes),
                            n_planes == frame.planes.visible_planes@.len(),
                            p < frame.planes.visible_planes@.len(),
                            *plane == frame.planes.visible_planes@[p as int],
                            plane.picnum != sky_flat,
                forall|k: int| 0 <= k < draws.spans@.len() ==> span_lit(#[trigger] draws.spans@[k], frame.planes.visible_planes@, *view, viewz@,
                    light_table.z_light@, sky_flat),
                forall|k: int| 0 <= k < draws.sky_columns@.len() ==> sky_column_of(#[trigger] draws.sky_columns@[k], frame.planes.visible_planes@,
                    sky_flat, sky_texture, self, view_angle@),
                        decreases b1 - t1 + 1,
                    {
                        self.plane_span(plane, p, t1, span_start[t1 as usize], x - 1, view, viewz, light_table, &mut draws, Ghost(n_planes), Ghost(frame.planes.visible_planes@), sky_flat);
                        t1 = t1 + 1;
                    }
                    while b1 > b2 && b1 >= t1 && 0 <= b1 && b1 < 256
                        invariant
                            span_start@.len() == 256,
                            0 <= x,
                            view.wf(),
                            p < n_planes,
                            light_table.z_light@.len() == 2048,
                            forall|q: int| 0 <= q < 2048 ==> #[trigger] light_table.z_light@[q] < 32,
                            draws.wf(view.height as int, n_planes),
                            n_planes == frame.planes.visible_planes@.len(),
                            p < frame.planes.visible_planes@.len(),
                            *plane == frame.planes.visible_planes@[p as int],
                            plane.picnum != sky_flat,
                forall|k: int| 0 <= k < draws.spans@.len() ==> span_lit(#[trigger] draws.spans@[k], frame.planes.visible_planes@, *view, viewz@,
                    light_table.z_light@, sky_flat),
                forall|k: int| 0 <= k < draws.sky_columns@.len() ==> sky_column_of(#[trigger] draws.sky_columns@[k], frame.planes.visible_planes@,
                    sky_flat, sky_texture, self, view_angle@),
                        decreases b1 - t1 + 1,
                    {
                        self.plane_span(plane, p, b1, span_start[b1 as usize], x - 1, view, viewz, light_table, &mut draws, Ghost(n_planes), Ghost(frame.planes.visible_planes@), sky_flat);
                        b1 = b1 - 1;
                    }
                    while t2 < t1 && t2 <= b2 && 0 <= t2 && t2 < 256
                        invariant
                            span_start@.len() == 256,
                        decreases b2 - t2 + 1,
                    {
                        span_start.set(t2 as usize, x);
                        t2 = t2 + 1;
                    }
                    while b2 > b1 && b2 >= t2 && 0 <= b2 && b2 < 256
                        invariant
                            span_start@.len() == 256,
                        decreases b2 - t2 + 1,
                    {
                        span_start.set(b2 as usize, x);
                        b2 = b2 - 1;
                    }
                    x = x + 1;
                }
            }
            p = p + 1;
        }
        draws
    }
}

} // verus!
