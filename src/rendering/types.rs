use vstd::prelude::*;
use vstd::wrapping::u32_specs;
use crate::number::{RealNumber, abs_int, wrap_i32, real_div_spec};
use crate::rendering::tables::{
    tan_to_angle, tan_to_angle_spec, fine_sine, fine_sine_spec, fine_cosine, SLOPE_RANGE,
};

verus! {

pub const ANGLE_90: u32 = 0x4000_0000;
pub const ANGLE_180: u32 = 0x8000_0000;
pub const ANGLE_270: u32 = 0xc000_0000;

/// Shift from a binary angle to a fine angle index.
pub const ANGLE_TO_FINESHIFT: u32 = 19;

/// Index into the arc tangent table for the slope `num / den` of two non-negative
/// bit patterns read as unsigned: `(num << 3) / (den >> 8)`, at most `SLOPE_RANGE`,
/// and `SLOPE_RANGE` when `den < 512`.
pub open spec fn slope_div_spec(num: i32, den: i32) -> int {
    let n = num as u32;
    let d = den as u32;
    if d < 512 {
        2048
    } else {
        let q = ((n << 3u32) / (d >> 8u32)) as int;
        if q <= 2048 { q } else { 2048 }
    }
}

/// The binary angle of the vector from `b` to `a`, computed octant by octant from the
/// arc tangent table. The differences and negations wrap as 32-bit integers.
pub open spec fn point_to_angle(ax: i32, ay: i32, bx: i32, by: i32) -> u32 {
    let x = wrap_i32(ax - bx);
    let y = wrap_i32(ay - by);
    if x == 0 && y == 0 {
        0
    } else if x >= 0 {
        if y >= 0 {
            if x > y {
                tan_to_angle_spec(slope_div_spec(y, x))
            } else {
                u32_specs::wrapping_sub((ANGLE_90 - 1) as u32, tan_to_angle_spec(slope_div_spec(x, y)))
            }
        } else {
            let ny = wrap_i32(-y);
            if x > ny {
                ANGLE_180 ^ tan_to_angle_spec(slope_div_spec(ny, x))
            } else {
                u32_specs::wrapping_add(ANGLE_270, tan_to_angle_spec(slope_div_spec(x, ny)))
            }
        }
    } else {
        let nx = wrap_i32(-x);
        if y >= 0 {
            if nx > y {
                u32_specs::wrapping_sub((ANGLE_180 - 1) as u32, tan_to_angle_spec(slope_div_spec(y, nx)))
            } else {
                u32_specs::wrapping_add(ANGLE_90, tan_to_angle_spec(slope_div_spec(nx, y)))
            }
        } else {
            let ny = wrap_i32(-y);
            if nx > ny {
                u32_specs::wrapping_add(ANGLE_180, tan_to_angle_spec(slope_div_spec(ny, nx)))
            } else {
                u32_specs::wrapping_sub((ANGLE_270 - 1) as u32, tan_to_angle_spec(slope_div_spec(nx, ny)))
            }
        }
    }
}

/// Absolute value that maps `i32::MIN` to `i32::MAX`.
pub open spec fn abs_sat(v: i32) -> i32 {
    if v == i32::MIN {
        i32::MAX
    } else if v < 0 {
        (-v) as i32
    } else {
        v
    }
}

/// Approximate distance between two points: the longer leg of the right triangle divided
/// by the cosine of the angle that the shorter leg makes with it; 0 for equal points.
pub open spec fn distance_spec(ax: i32, ay: i32, bx: i32, by: i32) -> i32 {
    let dx0 = abs_sat(wrap_i32(ax - bx));
    let dy0 = abs_sat(wrap_i32(ay - by));
    let dx = if dy0 > dx0 { dy0 } else { dx0 };
    let dy = if dy0 > dx0 { dx0 } else { dy0 };
    if dx == 0 {
        0
    } else {
        let slope = real_div_spec(dy, dx) / 32;
        let angle = u32_specs::wrapping_add(tan_to_angle_spec(slope), ANGLE_90) / 524288;
        real_div_spec(dx, fine_sine_spec(angle as int))
    }
}

#[derive(Copy, Clone, Debug)]
pub struct Point2D {
    pub x: RealNumber,
    pub y: RealNumber,
}

impl Point2D {
    pub fn new(x: RealNumber, y: RealNumber) -> (r: Self)
        ensures
            r.x == x,
            r.y == y,
    {
        Self { x, y }
    }

    pub fn x(&self) -> (r: RealNumber)
        ensures
            r == self.x,
    {
        self.x
    }

    pub fn y(&self) -> (r: RealNumber)
        ensures
            r == self.y,
    {
        self.y
    }

    /// Distance from this point to `other`, by the right-triangle approximation.
    pub fn distance(&self, other: Point2D) -> (r: RealNumber)
        ensures
            r@ == distance_spec(self.x@, self.y@, other.x@, other.y@),
    {
        let mut dx = abs_saturating(self.x.sub(other.x));
        let mut dy = abs_saturating(self.y.sub(other.y));
        if dy.gt(dx) {
            let t = dx;
            dx = dy;
            dy = t;
        }
        if dx.is_zero() {
            return RealNumber::new_from_bits(0);
        }
        let q = dy.div(dx);
        proof {
            lemma_slope_at_most_one(dy@ as int, dx@ as int);
        }
        let slope = (q.to_bits() / 32) as usize;
        let angle = tan_to_angle(slope).wrapping_add(ANGLE_90) >> ANGLE_TO_FINESHIFT;
        proof {
            lemma_shr19(tan_to_angle_spec(slope as int).wrapping_add(ANGLE_90));
        }
        dx.div(RealNumber::new_from_bits(fine_sine(angle as usize)))
    }
}

fn abs_saturating(v: RealNumber) -> (r: RealNumber)
    ensures
        r@ == abs_sat(v@),
{
    let b = v.to_bits();
    if b == i32::MIN {
        RealNumber::new_from_bits(i32::MAX)
    } else if b < 0 {
        RealNumber::new_from_bits(-b)
    } else {
        v
    }
}

proof fn lemma_slope_at_most_one(dy: int, dx: int)
    requires
        0 <= dy <= dx,
        0 < dx,
        dx <= i32::MAX,
    ensures
        0 <= real_div_spec(dy as i32, dx as i32) <= 65536,
{
    if abs_int(dy) / 16384 >= abs_int(dx) {
        assert(dy / 16384 < dx) by (nonlinear_arith)
            requires
                0 <= dy <= dx,
                0 < dx,
        ;
    } else {
        assert(0 <= dy * 65536 / dx <= 65536) by (nonlinear_arith)
            requires
                0 <= dy <= dx,
                0 < dx,
        ;
    }
}

proof fn lemma_shr19(a: u32)
    ensures
        a >> 19u32 == a / 524288,
        a >> 19u32 < 8192,
{
    assert(a >> 19u32 == a / 524288) by (bit_vector);
    assert(a >> 19u32 < 8192) by (bit_vector);
}

#[derive(Copy, Clone, Debug)]
pub struct Point3D {
    pub x: RealNumber,
    pub y: RealNumber,
    pub z: RealNumber,
}

impl Point3D {
    pub open spec fn spec_new(x: RealNumber, y: RealNumber, z: RealNumber) -> Point3D {
        Point3D { x, y, z }
    }

    pub fn new(x: RealNumber, y: RealNumber, z: RealNumber) -> (r: Self)
        ensures
            r.x == x,
            r.y == y,
            r.z == z,
            r == Self::spec_new(x, y, z),
    {
        Self { x, y, z }
    }

    pub fn x(&self) -> (r: RealNumber)
        ensures
            r == self.x,
    {
        self.x
    }

    pub fn y(&self) -> (r: RealNumber)
        ensures
            r == self.y,
    {
        self.y
    }

    pub fn z(&self) -> (r: RealNumber)
        ensures
            r == self.z,
    {
        self.z
    }

    /// The point's projection on the floor plane.
    pub fn to_2d(&self) -> (r: Point2D)
        ensures
            r.x == self.x,
            r.y == self.y,
    {
        Point2D { x: self.x, y: self.y }
    }
}

/// A binary angle: the full turn is 2^32, so additions and subtractions wrap.
#[derive(Copy, Clone, Debug, PartialEq, Eq, Structural)]
pub struct Angle(u32);

impl View for Angle {
    type V = u32;

    closed spec fn view(&self) -> u32 {
        self.0
    }
}

impl Angle {
    pub fn new(angle: u32) -> (r: Self)
        ensures
            r@ == angle,
    {
        Angle(angle)
    }

    pub fn to_u32(&self) -> (r: u32)
        ensures
            r == self@,
    {
        self.0
    }

    pub fn angle90() -> (r: Self)
        ensures
            r@ == ANGLE_90,
    {
        Angle(ANGLE_90)
    }

    pub fn angle180() -> (r: Self)
        ensures
            r@ == ANGLE_180,
    {
        Angle(ANGLE_180)
    }

    /// This angle turned by `angle`.
    pub fn rotate(&self, angle: Angle) -> (r: Angle)
        ensures
            r@ == u32_specs::wrapping_add(self@, angle@),
    {
        Angle(self.0.wrapping_add(angle.0))
    }

    pub fn add(self, rhs: Angle) -> (r: Angle)
        ensures
            r@ == u32_specs::wrapping_add(self@, rhs@),
    {
        Angle(self.0.wrapping_add(rhs.0))
    }

    pub fn sub(self, rhs: Angle) -> (r: Angle)
        ensures
            r@ == u32_specs::wrapping_sub(self@, rhs@),
    {
        Angle(self.0.wrapping_sub(rhs.0))
    }

    /// Two's complement negation.
    pub fn neg(self) -> (r: Angle)
        ensures
            r@ == u32_specs::wrapping_sub(0, self@),
    {
        Angle(0u32.wrapping_sub(self.0))
    }

    /// The angle `factor` times this one.
    pub fn scale(self, factor: u32) -> (r: Angle)
        ensures
            r@ == u32_specs::wrapping_mul(factor, self@),
    {
        Angle(factor.wrapping_mul(self.0))
    }

    /// Turns by 180 degrees by flipping the most significant bit.
    pub fn flip(&self) -> (r: Self)
        ensures
            r@ == ANGLE_180 ^ self@,
    {
        Angle(ANGLE_180 ^ self.0)
    }

    pub fn from_fine_shift(fine_shift: usize) -> (r: Self)
        requires
            fine_shift < 8192,
        ensures
            r@ == fine_shift * 524288,
    {
        let f = fine_shift as u32;
        let r = f << ANGLE_TO_FINESHIFT;
        assert(f << 19u32 == f * 524288) by (bit_vector)
            requires
                f < 8192,
        ;
        Angle(r)
    }

    /// The fine angle index of this angle, as an angle value: `self >> 19`.
    pub fn fineshift(&self) -> (r: Angle)
        ensures
            r@ == self@ / 524288,
            r@ < 8192,
    {
        proof {
            lemma_shr19(self.0);
        }
        Angle(self.0 >> ANGLE_TO_FINESHIFT)
    }

    /// The fine angle index of this angle.
    pub fn fine_index(&self) -> (r: usize)
        ensures
            r == self@ / 524288,
            r < 8192,
    {
        proof {
            lemma_shr19(self.0);
        }
        (self.0 >> ANGLE_TO_FINESHIFT) as usize
    }

    pub fn lt(self, rhs: Angle) -> (r: bool)
        ensures
            r == (self@ < rhs@),
    {
        self.0 < rhs.0
    }

    pub fn le(self, rhs: Angle) -> (r: bool)
        ensures
            r == (self@ <= rhs@),
    {
        self.0 <= rhs.0
    }

    pub fn gt(self, rhs: Angle) -> (r: bool)
        ensures
            r == (self@ > rhs@),
    {
        self.0 > rhs.0
    }

    pub fn ge(self, rhs: Angle) -> (r: bool)
        ensures
            r == (self@ >= rhs@),
    {
        self.0 >= rhs.0
    }

    /// Sine of this angle, read from the sine table at its fine angle.
    pub fn sine(&self) -> (r: RealNumber)
        ensures
            r@ == fine_sine_spec(self@ as int / 524288),
    {
        RealNumber::new_from_bits(fine_sine(self.fine_index()))
    }

    /// Cosine of this angle, read from the sine table a quarter turn further.
    pub fn cosine(&self) -> (r: RealNumber)
        ensures
            r@ == fine_sine_spec(self@ as int / 524288 + 2048),
    {
        RealNumber::new_from_bits(fine_cosine(self.fine_index()))
    }

    /// Index into the arc tangent table for the slope `num / den`.
    fn slope_div(num: i32, den: i32) -> (r: usize)
        ensures
            r == slope_div_spec(num, den),
            r <= SLOPE_RANGE,
    {
        let n = #[verifier::truncate] (num as u32);
        let d = #[verifier::truncate] (den as u32);
        if d < 512 {
            SLOPE_RANGE
        } else {
            assert(d >> 8u32 >= 2) by (bit_vector)
                requires
                    d >= 512,
            ;
            let ans = (n << 3u32) / (d >> 8u32);
            if ans <= 2048 {
                ans as usize
            } else {
                SLOPE_RANGE
            }
        }
    }

    /// The binary angle of the vector from `b` to `a`.
    pub fn from_points(a: &Point2D, b: &Point2D) -> (r: Self)
        ensures
            r@ == point_to_angle(a.x@, a.y@, b.x@, b.y@),
    {
        let x = a.x.sub(b.x);
        let y = a.y.sub(b.y);
        if x.is_zero() && y.is_zero() {
            return Angle(0);
        }
        let zero = RealNumber::new_from_bits(0);
        let angle = if x.ge(zero) {
            if y.ge(zero) {
                if x.gt(y) {
                    tan_to_angle(Self::slope_div(y.to_bits(), x.to_bits()))
                } else {
                    (ANGLE_90 - 1).wrapping_sub(
                        tan_to_angle(Self::slope_div(x.to_bits(), y.to_bits())),
                    )
                }
            } else {
                let y = y.neg();
                if x.gt(y) {
                    ANGLE_180 ^ tan_to_angle(Self::slope_div(y.to_bits(), x.to_bits()))
                } else {
                    ANGLE_270.wrapping_add(tan_to_angle(Self::slope_div(x.to_bits(), y.to_bits())))
                }
            }
        } else {
            let x = x.neg();
            if y.ge(zero) {
                if x.gt(y) {
                    (ANGLE_180 - 1).wrapping_sub(
                        tan_to_angle(Self::slope_div(y.to_bits(), x.to_bits())),
                    )
                } else {
                    ANGLE_90.wrapping_add(tan_to_angle(Self::slope_div(x.to_bits(), y.to_bits())))
                }
            } else {
                let y = y.neg();
                if x.gt(y) {
                    ANGLE_180.wrapping_add(tan_to_angle(Self::slope_div(y.to_bits(), x.to_bits())))
                } else {
                    (ANGLE_270 - 1).wrapping_sub(
                        tan_to_angle(Self::slope_div(x.to_bits(), y.to_bits())),
                    )
                }
            }
        };
        Angle(angle)
    }
}

/// The angle from a point to itself is 0.
pub proof fn lemma_angle_to_same_point(p: Point2D)
    ensures
        point_to_angle(p.x@, p.y@, p.x@, p.y@) == 0,
{
}

/// Swapping the two points turns the angle by 180 degrees, wherever neither coordinate
/// difference is 0 and the vector does not lie in the two octants where the slope of a
/// vector with coordinates of opposite signs is below 1 in magnitude (there the angle is
/// formed by flipping the most significant bit, which is no reflection).
pub proof fn lemma_angle_reversed(a: Point2D, b: Point2D)
    requires
        i32::MIN < a.x@ - b.x@ <= i32::MAX,
        i32::MIN < a.y@ - b.y@ <= i32::MAX,
        a.x@ != b.x@,
        a.y@ != b.y@,
        !(((a.x@ < b.x@) != (a.y@ < b.y@)) && abs_int(a.x@ - b.x@) > abs_int(a.y@ - b.y@)),
    ensures
        u32_specs::wrapping_sub(
            point_to_angle(a.x@, a.y@, b.x@, b.y@),
            point_to_angle(b.x@, b.y@, a.x@, a.y@),
        ) == ANGLE_180,
{
}

/// The fine angle of the angle made from a fine angle index is that index.
pub proof fn lemma_fine_shift_round_trip(x: int)
    requires
        0 <= x < 8192,
    ensures
        (x * 524288) / 524288 == x,
        x * 524288 <= u32::MAX,
{
}

} // verus!
