use vstd::prelude::*;

// Each table is split into modules of at most 1024 entries, so that a proof about one
// part sees only that part.
mod tan_to_angle_0;
mod tan_to_angle_1;
mod tan_to_angle_2;
mod fine_sine_0;
mod fine_sine_1;
mod fine_sine_2;
mod fine_sine_3;
mod fine_sine_4;
mod fine_sine_5;
mod fine_sine_6;
mod fine_sine_7;
mod fine_sine_8;
mod fine_sine_9;
mod fine_tangent_0;
mod fine_tangent_1;
mod fine_tangent_2;
mod fine_tangent_3;

verus! {

/// Number of fine angles in a full turn.
pub const FINEANGLES: usize = 8192;

/// Mask of a fine angle index.
pub const FINEMASK: usize = 8191;

/// Largest slope index of the arc tangent table.
pub const SLOPE_RANGE: usize = 2048;

/// Number of entries of the sine table: a full turn and a quarter, so that the cosine
/// of a fine angle `i` is the sine of `i + FINEANGLES / 4`.
pub const FINE_SINE_LEN: usize = 10240;

/// Number of entries of the tangent table: half a turn, from -90 to +90 degrees.
pub const FINE_TANGENT_LEN: usize = 4096;

/// Binary angle of the arc tangent of `i / 2048`, for `i` in `0..=2048`.
pub closed spec fn tan_to_angle_spec(i: int) -> u32 {
    if i < 1024 {
        tan_to_angle_0::entry(i)
    } else if i < 2048 {
        tan_to_angle_1::entry(i - 1024)
    } else {
        tan_to_angle_2::entry(i - 2048)
    }
}

/// Sine of the fine angle `i + 0.5`, as the bit pattern of a real (stored in
/// two's complement).
pub closed spec fn fine_sine_spec(i: int) -> i32 {
    if i < 1024 {
        fine_sine_0::entry(i)
    } else if i < 2048 {
        fine_sine_1::entry(i - 1024)
    } else if i < 3072 {
        fine_sine_2::entry(i - 2048)
    } else if i < 4096 {
        fine_sine_3::entry(i - 3072)
    } else if i < 5120 {
        fine_sine_4::entry(i - 4096)
    } else if i < 6144 {
        fine_sine_5::entry(i - 5120)
    } else if i < 7168 {
        fine_sine_6::entry(i - 6144)
    } else if i < 8192 {
        fine_sine_7::entry(i - 7168)
    } else if i < 9216 {
        fine_sine_8::entry(i - 8192)
    } else {
        fine_sine_9::entry(i - 9216)
    }
}

/// Tangent of the fine angle `i - 2048 + 0.5`, as the bit pattern of a real (stored in
/// two's complement).
pub closed spec fn fine_tangent_spec(i: int) -> i32 {
    if i < 1024 {
        fine_tangent_0::entry(i)
    } else if i < 2048 {
        fine_tangent_1::entry(i - 1024)
    } else if i < 3072 {
        fine_tangent_2::entry(i - 2048)
    } else {
        fine_tangent_3::entry(i - 3072)
    }
}

/// Entry `i` of the arc tangent table.
pub fn tan_to_angle(i: usize) -> (r: u32)
    requires
        i <= SLOPE_RANGE,
    ensures
        r == tan_to_angle_spec(i as int),
{
    if i < 1024 {
        tan_to_angle_0::entry_at(i)
    } else if i < 2048 {
        tan_to_angle_1::entry_at(i - 1024)
    } else {
        tan_to_angle_2::entry_at(i - 2048)
    }
}

/// Entry `i` of the sine table.
pub fn fine_sine(i: usize) -> (r: i32)
    requires
        i < FINE_SINE_LEN,
    ensures
        r == fine_sine_spec(i as int),
{
    if i < 1024 {
        fine_sine_0::entry_at(i)
    } else if i < 2048 {
        fine_sine_1::entry_at(i - 1024)
    } else if i < 3072 {
        fine_sine_2::entry_at(i - 2048)
    } else if i < 4096 {
        fine_sine_3::entry_at(i - 3072)
    } else if i < 5120 {
        fine_sine_4::entry_at(i - 4096)
    } else if i < 6144 {
        fine_sine_5::entry_at(i - 5120)
    } else if i < 7168 {
        fine_sine_6::entry_at(i - 6144)
    } else if i < 8192 {
        fine_sine_7::entry_at(i - 7168)
    } else if i < 9216 {
        fine_sine_8::entry_at(i - 8192)
    } else {
        fine_sine_9::entry_at(i - 9216)
    }
}

/// Cosine of the fine angle `i`: the sine a quarter turn further.
pub fn fine_cosine(i: usize) -> (r: i32)
    requires
        i < FINEANGLES,
    ensures
        r == fine_sine_spec(i + 2048),
{
    fine_sine(i + 2048)
}

/// Entry `i` of the tangent table.
pub fn fine_tangent(i: usize) -> (r: i32)
    requires
        i < FINE_TANGENT_LEN,
    ensures
        r == fine_tangent_spec(i as int),
{
    if i < 1024 {
        fine_tangent_0::entry_at(i)
    } else if i < 2048 {
        fine_tangent_1::entry_at(i - 1024)
    } else if i < 3072 {
        fine_tangent_2::entry_at(i - 2048)
    } else {
        fine_tangent_3::entry_at(i - 3072)
    }
}

} // verus!
