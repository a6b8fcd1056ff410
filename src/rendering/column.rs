use vstd::prelude::*;
use crate::number::RealNumber;
use crate::rendering::{RENDER_HEIGHT, RENDER_WIDTH};

verus! {

/// Number of bytes of a screen.
pub const SCREEN_SIZE: usize = 64000;

/// The row of a texture column of height `h` that texture row `q` falls on, wrapping.
pub open spec fn texel_row(q: int, h: int) -> int {
    if q >= 0 {
        q % h
    } else {
        h - 1 - ((-q - 1) % h)
    }
}

/// The texture row sampled at screen row `y`: `(texture_mid + (y - centery) * iscale) >> 16`,
/// the sum wrapping as a 32-bit integer.
pub open spec fn column_frac(texture_mid: i32, iscale: i32, centery: int, y: int) -> int {
    ((texture_mid as int + (y - centery) * iscale as int) as i32) as int / 65536
}

/// Draws rows `yl..=yh` of screen column `x`: each pixel is the texel that the row maps to
/// in `column`, through the color map row `color_map`.
pub fn draw_column(
    screen: &mut Vec<u8>,
    x: usize,
    yl: usize,
    yh: usize,
    column: &[u8],
    color_map: &[u8],
    texture_mid: RealNumber,
    iscale: RealNumber,
    centery: usize,
)
    requires
        old(screen)@.len() == SCREEN_SIZE,
        x < RENDER_WIDTH,
        yh < RENDER_HEIGHT,
        centery <= RENDER_HEIGHT,
        0 < column@.len() <= 0x10000,
        color_map@.len() == 256,
    ensures
        final(screen)@.len() == SCREEN_SIZE,
        forall|y: int|
            yl <= y <= yh ==> #[trigger] final(screen)@[y * 320 + x] == color_map@[column@[texel_row(
                column_frac(texture_mid@, iscale@, centery as int, y),
                column@.len() as int,
            )] as int],
        forall|i: int|
            0 <= i < SCREEN_SIZE && !(i % 320 == x && yl <= i / 320 <= yh) ==> #[trigger] final(screen)@[i]
                == old(screen)@[i],
{
    if yl > yh {
        return;
    }
    let h = column.len() as i64;
    let mut y = yl;
    while y <= yh
        invariant
            screen@.len() == SCREEN_SIZE,
            x < RENDER_WIDTH,
            yh < RENDER_HEIGHT,
            centery <= RENDER_HEIGHT,
            yl <= y <= yh + 1,
            h == column@.len(),
            0 < h <= 0x10000,
            color_map@.len() == 256,
            forall|r: int|
                yl <= r < y ==> #[trigger] screen@[r * 320 + x] == color_map@[column@[texel_row(
                    column_frac(texture_mid@, iscale@, centery as int, r),
                    column@.len() as int,
                )] as int],
            forall|i: int|
                0 <= i < SCREEN_SIZE && !(i % 320 == x && yl <= i / 320 < y) ==> #[trigger] screen@[i]
                    == old(screen)@[i],
        decreases yh + 1 - y,
    {
        let dy: i64 = y as i64 - centery as i64;
        let s: i64 = iscale.to_bits() as i64;
        assert(-1000 <= dy <= 1000 && i32::MIN <= s <= i32::MAX);
        assert(-2147483648000 <= dy * s <= 2147483648000) by (nonlinear_arith)
            requires
                -1000 <= dy <= 1000,
                i32::MIN <= s <= i32::MAX,
        ;
        let t: i64 = texture_mid.to_bits() as i64 + dy * s;
        let frac = RealNumber::new_from_bits(#[verifier::truncate] (t as i32));
        let q = frac.to_int() as i64;
        let row = if q >= 0 { q % h } else { h - 1 - ((-q - 1) % h) };
        let texel = column[row as usize];
        let ghost before = screen@;
        let at = y * 320 + x;
        screen.set(at, color_map[texel as usize]);
        proof {
            assert forall|r: int|
                yl <= r < y + 1 implies #[trigger] screen@[r * 320 + x] == color_map@[column@[texel_row(
                    column_frac(texture_mid@, iscale@, centery as int, r),
                    column@.len() as int,
                )] as int] by {
                if r < y {
                    assert(r * 320 + x != at) by (nonlinear_arith)
                        requires
                            r < y,
                            x < 320,
                            at == y * 320 + x,
                    ;
                    assert(screen@[r * 320 + x] == before[r * 320 + x]);
                }
            }
            assert forall|i: int|
                0 <= i < SCREEN_SIZE && !(i % 320 == x && yl <= i / 320 < y + 1) implies #[trigger] screen@[i]
                    == old(screen)@[i] by {
                assert((at as int) % 320 == x && (at as int) / 320 == y) by (nonlinear_arith)
                    requires
                        at == y * 320 + x,
                        x < 320,
                ;
                assert(i != at);
                assert(screen@[i] == before[i]);
            }
        }
        y = y + 1;
    }
}

} // verus!
