use vstd::prelude::*;
use crate::graphics::color_maps::{ColorMapData, NUM_COLOR_MAPS};
use crate::number::{RealNumber, real_div_spec};

verus! {

pub const LIGHT_LEVELS: usize = 16;
pub const MAX_LIGHT_Z: usize = 128;
pub const LIGHT_Z_SHIFT: u32 = 20;
pub const DIST_MAP: i32 = 2;

/// The color map of light level `i` at depth `j`: darker with distance.
pub open spec fn z_light_level(i: int, j: int) -> int {
    let start_map = ((15 - i) * 2) * 32 / 16;
    let scale = real_div_spec(10485760i32, ((j + 1) * 1048576) as i32) as int / 4096;
    let level = start_map - scale / 2;
    if level < 0 {
        0
    } else if level > 31 {
        31
    } else {
        level
    }
}

/// For each light level (sector light >> 4) and depth (distance >> 20), the color map
/// to draw a floor or ceiling span with.
pub struct LightTable {
    pub z_light: Vec<usize>,
}

impl LightTable {
    /// Computes the color map of every light level and depth.
    pub fn init(color_map_data: &ColorMapData) -> (r: Self)
        ensures
            r.z_light@.len() == LIGHT_LEVELS * MAX_LIGHT_Z,
            forall|i: int, j: int|
                0 <= i < 16 && 0 <= j < 128 ==> #[trigger] r.z_light@[i * 128 + j] == z_light_level(i, j),
    {
        let mut z_light: Vec<usize> = Vec::new();
        let width = RealNumber::new(160);
        let mut i: usize = 0;
        while i < LIGHT_LEVELS
            invariant
                i <= LIGHT_LEVELS,
                width@ == 160 * 65536,
                z_light@.len() == i * 128,
                forall|a: int, b: int| 0 <= a < i && 0 <= b < 128 ==> #[trigger] z_light@[a * 128 + b] == z_light_level(a, b),
            decreases LIGHT_LEVELS - i,
        {
            let start_map = ((LIGHT_LEVELS - 1 - i) * 2) * NUM_COLOR_MAPS / LIGHT_LEVELS;
            let mut j: usize = 0;
            while j < MAX_LIGHT_Z
                invariant
                    i < LIGHT_LEVELS,
                    j <= MAX_LIGHT_Z,
                    width@ == 160 * 65536,
                    start_map == ((15 - i) * 2) * 32 / 16,
                    z_light@.len() == i * 128 + j,
                    forall|a: int, b: int| 0 <= a < i && 0 <= b < 128 ==> #[trigger] z_light@[a * 128 + b] == z_light_level(a, b),
                    forall|b: int| 0 <= b < j ==> #[trigger] z_light@[i * 128 + b] == z_light_level(i as int, b),
                decreases MAX_LIGHT_Z - j,
            {
                let scale = width.div(RealNumber::new_from_bits(((j + 1) as i32) * 1048576)).shr(12);
                let level = start_map as i32 - scale.to_bits() / DIST_MAP;
                let level = if level < 0 {
                    0
                } else if level > 31 {
                    31
                } else {
                    level
                };
                let ghost before = z_light@;
                z_light.push(level as usize);
                proof {
                    let q = real_div_spec(10485760i32, ((j + 1) * 1048576) as i32);
                    assert(q >= 0) by (nonlinear_arith)
                        requires
                            q == real_div_spec(10485760i32, ((j + 1) * 1048576) as i32),
                            0 <= j < 128,
                    ;
                    assert(scale@ == q as int / 4096) by {
                        assert(q >> 12u32 == q / 4096) by (bit_vector);
                    }
                    assert(level == z_light_level(i as int, j as int));
                    assert forall|a: int, b: int| 0 <= a < i && 0 <= b < 128 implies #[trigger] z_light@[a * 128 + b] == z_light_level(a, b) by {
                        assert(a * 128 + b < i * 128) by (nonlinear_arith)
                            requires
                                0 <= a < i,
                                0 <= b < 128,
                        ;
                        assert(z_light@[a * 128 + b] == before[a * 128 + b]);
                    }
                    assert forall|b: int| 0 <= b < j + 1 implies #[trigger] z_light@[i * 128 + b] == z_light_level(i as int, b) by {
                        if b < j {
                            assert(z_light@[i * 128 + b] == before[i * 128 + b]);
                        }
                    }
                }
                j = j + 1;
            }
            proof {
                assert forall|a: int, b: int| 0 <= a < i + 1 && 0 <= b < 128 implies #[trigger] z_light@[a * 128 + b] == z_light_level(a, b) by {
                    if a == i {
                        assert(z_light@[i * 128 + b] == z_light_level(i as int, b));
                    }
                }
            }
            i = i + 1;
        }
        LightTable { z_light }
    }
}

} // verus!
