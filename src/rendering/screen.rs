use vstd::prelude::*;
use crate::bytes::le_i16;
use crate::graphics::color_maps::ColorMapData;
use crate::graphics::textures::TextureData;
use crate::rendering::bsp::WallColumn;
use crate::rendering::column::draw_column;
use crate::rendering::ViewWindow;
use crate::rendering::column::SCREEN_SIZE;
use crate::rendering::patch::Patch;
use crate::rendering::{RENDER_HEIGHT, RENDER_WIDTH};

verus! {

/// Whether a patch placed at `(x, y)` (before its offsets are taken off) lies inside the
/// screen.
pub open spec fn patch_fits(patch: &Patch, x: int, y: int) -> bool {
    let left = x - le_i16(patch.data@, 4);
    let top = y - le_i16(patch.data@, 6);
    left >= 0 && left + le_i16(patch.data@, 0) <= RENDER_WIDTH && top >= 0 && top + le_i16(patch.data@, 2)
        <= RENDER_HEIGHT
}

/// Copies a patch onto a screen at `(x, y)`, less its offsets, post by post. A patch that
/// would not fit is skipped and `false` returned.
pub fn draw_patch(screen: &mut Vec<u8>, x: i32, y: i32, patch: &Patch) -> (r: bool)
    requires
        old(screen)@.len() == SCREEN_SIZE,
        patch.wf(),
        -32768 <= x <= 32767,
        -32768 <= y <= 32767,
    ensures
        final(screen)@.len() == SCREEN_SIZE,
        r == patch_fits(patch, x as int, y as int),
        !r ==> final(screen)@ == old(screen)@,
{
    let left = x - patch.left_offset();
    let top = y - patch.top_offset();
    let width = patch.width();
    let height = patch.height();
    if left < 0 || left + width > RENDER_WIDTH as i32 || top < 0 || top + height > RENDER_HEIGHT as i32 {
        return false;
    }
    let mut column_index: i32 = 0;
    while column_index < width
        invariant
            screen@.len() == SCREEN_SIZE,
            0 <= left,
            left + width <= RENDER_WIDTH,
            0 <= top <= 32767 + 32768,
            0 <= column_index,
        decreases width - column_index,
    {
        let screen_x = (left + column_index) as usize;
        assert(screen_x < RENDER_WIDTH);
        match patch.get_column(column_index as usize) {
            Some(column) => {
                let posts = column.posts(patch);
                let mut p: usize = 0;
                while p < posts.len()
                    invariant
                        screen@.len() == SCREEN_SIZE,
                        screen_x < RENDER_WIDTH,
                        0 <= top <= 32767 + 32768,
                        forall|k: int| 0 <= k < posts@.len() ==> (#[trigger] posts@[k]).length == posts@[k].data@.len() && 0 <= posts@[k].top_delta < 255 && posts@[k].data@.len() < 256,
                    decreases posts@.len() - p,
                {
                    let post = &posts[p];
                    let mut i: usize = 0;
                    while i < post.data.len()
                        invariant
                            screen@.len() == SCREEN_SIZE,
                            screen_x < RENDER_WIDTH,
                            0 <= top <= 32767 + 32768,
                            0 <= post.top_delta < 255,
                            post.data@.len() < 256,
                        decreases post.data@.len() - i,
                    {
                        let screen_y = top as usize + post.top_delta as usize + i;
                        if screen_y < RENDER_HEIGHT {
                            screen.set(screen_y * RENDER_WIDTH + screen_x, post.data[i]);
                        }
                        i = i + 1;
                    }
                    p = p + 1;
                }
            },
            None => {},
        }
        column_index = column_index + 1;
    }
    true
}

/// The palette as RGBA: each RGB triple of `PLAYPAL` followed by an opaque alpha.
pub fn rgb_to_rgba(data: &[u8]) -> (r: Vec<u8>)
    requires
        data@.len() >= 768,
    ensures
        r@.len() == 1024,
        forall|i: int| 0 <= i < 256 ==> {
            &&& #[trigger] r@[4 * i] == data@[3 * i]
            &&& r@[4 * i + 1] == data@[3 * i + 1]
            &&& r@[4 * i + 2] == data@[3 * i + 2]
            &&& r@[4 * i + 3] == 255
        },
{
    let mut rgba: Vec<u8> = Vec::new();
    let mut x: usize = 0;
    while x < 256
        invariant
            x <= 256,
            data@.len() >= 768,
            rgba@.len() == 4 * x,
            forall|i: int| 0 <= i < x ==> {
                &&& #[trigger] rgba@[4 * i] == data@[3 * i]
                &&& rgba@[4 * i + 1] == data@[3 * i + 1]
                &&& rgba@[4 * i + 2] == data@[3 * i + 2]
                &&& rgba@[4 * i + 3] == 255
            },
        decreases 256 - x,
    {
        let ghost before = rgba@;
        rgba.push(data[3 * x]);
        rgba.push(data[3 * x + 1]);
        rgba.push(data[3 * x + 2]);
        rgba.push(0xff);
        proof {
            assert forall|i: int| 0 <= i < x + 1 implies {
                &&& #[trigger] rgba@[4 * i] == data@[3 * i]
                &&& rgba@[4 * i + 1] == data@[3 * i + 1]
                &&& rgba@[4 * i + 2] == data@[3 * i + 2]
                &&& rgba@[4 * i + 3] == 255
            } by {
                if i < x {
                    assert(rgba@[4 * i] == before[4 * i]);
                    assert(rgba@[4 * i + 1] == before[4 * i + 1]);
                    assert(rgba@[4 * i + 2] == before[4 * i + 2]);
                    assert(rgba@[4 * i + 3] == before[4 * i + 3]);
                }
            }
        }
        x = x + 1;
    }
    rgba
}


/// The color map of a wall of light level `level` (0..16) at scale index `index`
/// (0..48): from the level's start map, darker for smaller scales.
pub open spec fn scale_light_level(level: int, index: int, view: ViewWindow) -> int {
    let start_map = ((15 - level) * 2) * 32 / 16;
    let l = start_map - index * 320 / (view.width * (if view.detail_shift == 1 { 2int } else { 1 })) / 2;
    if l < 0 {
        0
    } else if l > 31 {
        31
    } else {
        l
    }
}

fn scale_light(level: usize, index: usize, view: &ViewWindow) -> (r: usize)
    requires
        view.wf(),
        level < 16,
        index < 48,
    ensures
        r == scale_light_level(level as int, index as int, *view),
        r < 32,
{
    let start_map = ((15 - level) * 2) * 32 / 16;
    let width = if view.detail_shift == 1 { view.width * 2 } else { view.width };
    let l = start_map as i64 - (index * 320 / width / 2) as i64;
    if l < 0 {
        0
    } else if l > 31 {
        31
    } else {
        l as usize
    }
}

/// Pixel `i` lies in the rows of one of the first `k` columns.
pub open spec fn columns_cover(columns: Seq<WallColumn>, k: int, i: int) -> bool {
    exists|j: int| 0 <= j < k && (#[trigger] columns[j]).x == i % 320 && columns[j].yl <= i / 320 <= columns[j].yh
}

/// Draws the wall columns of a frame: each column of its texture, composed from the
/// patches, through the color map of its light. Columns outside the screen or naming no
/// texture are skipped.
pub fn draw_walls(
    screen: &mut Vec<u8>,
    columns: &Vec<WallColumn>,
    view: &ViewWindow,
    textures: &TextureData,
    patches: &Vec<Option<Patch>>,
    color_maps: &ColorMapData,
)
    requires
        old(screen)@.len() == SCREEN_SIZE,
        view.wf(),
        textures.wf(),
        color_maps.wf(),
        forall|i: int| 0 <= i < patches@.len() ==> (#[trigger] patches@[i] matches Some(p) ==> p.wf()),
    ensures
        final(screen)@.len() == SCREEN_SIZE,
        forall|i: int| 0 <= i < SCREEN_SIZE && !columns_cover(columns@, columns@.len() as int, i) ==> #[trigger] final(screen)@[i] == old(screen)@[i],
{
    let mut k: usize = 0;
    while k < columns.len()
        invariant
            screen@.len() == SCREEN_SIZE,
            k <= columns@.len(),
            forall|i: int| 0 <= i < SCREEN_SIZE && !columns_cover(columns@, k as int, i) ==> #[trigger] screen@[i] == old(screen)@[i],
            view.wf(),
            textures.wf(),
            color_maps.wf(),
            forall|i: int| 0 <= i < patches@.len() ==> (#[trigger] patches@[i] matches Some(p) ==> p.wf()),
        decreases columns@.len() - k,
    {
        let c = columns[k];
        let t = c.texture.0;
        if t < textures.textures.len() && 0 <= c.x && c.x < RENDER_WIDTH as i32 && 0 <= c.yl && c.yl <= c.yh
            && c.yh < RENDER_HEIGHT as i32 && c.light_level < 16 && c.light_index < 48 {
            let mask = textures.texture_width_mask[t];
            let col = ((c.texture_column as u32) & mask) as i32;
            let texels = textures.composite_column(c.texture, col, patches);
            let level = scale_light(c.light_level, c.light_index, view);
            let ghost before = screen@;
            draw_column(
                screen,
                c.x as usize,
                c.yl as usize,
                c.yh as usize,
                texels.as_slice(),
                color_maps.row(level),
                c.texture_mid,
                c.iscale,
                view.centery,
            );
            proof {
                assert forall|i: int| 0 <= i < SCREEN_SIZE && !columns_cover(columns@, k + 1, i) implies #[trigger] screen@[i] == old(screen)@[i] by {
                    assert(!columns_cover(columns@, k as int, i));
                    assert(!(i % 320 == c.x && c.yl <= i / 320 <= c.yh));
                    assert(screen@[i] == before[i]);
                }
            }
        }
        k = k + 1;
    }
}

} // verus!
