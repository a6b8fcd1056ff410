use vstd::prelude::*;

verus! {

/// Number of fractional bits of a `RealNumber`.
pub const FRACTIONAL_BITS: i32 = 16;

/// Bit pattern of the real number 1.0.
pub const FIXED_UNIT: i32 = 65536;

/// Absolute value of an integer.
pub open spec fn abs_int(x: int) -> int {
    if x < 0 { -x } else { x }
}

/// Reduces an integer in `[-2^32, 2^32)` to the 32-bit two's complement range.
pub open spec fn wrap_i32(x: int) -> i32 {
    if x > i32::MAX {
        (x - 4294967296) as i32
    } else if x < i32::MIN {
        (x + 4294967296) as i32
    } else {
        x as i32
    }
}

/// Bit pattern of the product of two reals: the 64-bit product shifted right by 16
/// (rounding towards minus infinity) and narrowed to 32 bits by truncation.
pub open spec fn real_mul_spec(a: i32, b: i32) -> i32 {
    ((a as int * b as int) / 65536) as i32
}

/// Whether a division of `a` by `b` saturates: `|a| >> 14 >= |b|`.
pub open spec fn real_div_saturates(a: i32, b: i32) -> bool {
    abs_int(a as int) / 16384 >= abs_int(b as int)
}

/// Bit pattern of the quotient of two reals: `(a << 16) / b` rounded towards zero, or
/// the extreme of the sign `sign(a) xor sign(b)` when the division saturates.
pub open spec fn real_div_spec(a: i32, b: i32) -> i32 {
    if real_div_saturates(a, b) {
        if (a < 0) != (b < 0) { i32::MIN } else { i32::MAX }
    } else {
        let q = abs_int(a as int) * 65536 / abs_int(b as int);
        if (a < 0) != (b < 0) { (-q) as i32 } else { q as i32 }
    }
}

/// A signed Q16.16 fixed-point number: 16 integer bits and 16 fractional bits.
/// Its view is the bit pattern; the value it stands for is `self@ / 65536`.
#[derive(Copy, Clone, Debug, PartialEq, Eq, Structural)]
pub struct RealNumber {
    bits: i32,
}

impl View for RealNumber {
    type V = i32;

    closed spec fn view(&self) -> i32 {
        self.bits
    }
}

impl RealNumber {
    /// The real number with integer value `num`.
    pub fn new(num: i32) -> (r: Self)
        requires
            -32768 <= num <= 32767,
        ensures
            r@ == num * 65536,
    {
        RealNumber { bits: num * FIXED_UNIT }
    }

    pub fn new_from_bits(bits: i32) -> (r: Self)
        ensures
            r@ == bits,
    {
        RealNumber { bits }
    }

    pub fn is_zero(self) -> (r: bool)
        ensures
            r == (self@ == 0),
    {
        self.bits == 0
    }

    pub fn is_negative(self) -> (r: bool)
        ensures
            r == (self@ < 0),
    {
        self.bits < 0
    }

    pub fn to_bits(self) -> (r: i32)
        ensures
            r == self@,
    {
        self.bits
    }

    /// Integer part, rounding towards minus infinity.
    pub fn to_int(self) -> (r: i32)
        ensures
            r == self@ as int / 65536,
    {
        let r = self.bits >> 16u32;
        proof {
            lemma_shr16(self.bits);
        }
        r
    }

    pub fn abs(self) -> (r: Self)
        requires
            self@ != i32::MIN,
        ensures
            r@ == abs_int(self@ as int),
    {
        if self.bits < 0 {
            RealNumber { bits: -self.bits }
        } else {
            self
        }
    }

    /// Sum of two reals, wrapping on overflow.
    pub fn add(self, rhs: Self) -> (r: Self)
        ensures
            r@ == wrap_i32(self@ + rhs@),
    {
        RealNumber { bits: self.bits.wrapping_add(rhs.bits) }
    }

    /// Difference of two reals, wrapping on overflow.
    pub fn sub(self, rhs: Self) -> (r: Self)
        ensures
            r@ == wrap_i32(self@ - rhs@),
    {
        RealNumber { bits: self.bits.wrapping_sub(rhs.bits) }
    }

    /// Negation, wrapping on overflow.
    pub fn neg(self) -> (r: Self)
        ensures
            r@ == wrap_i32(-self@),
    {
        RealNumber { bits: 0i32.wrapping_sub(self.bits) }
    }

    pub fn bitxor(self, rhs: Self) -> (r: Self)
        ensures
            r@ == self@ ^ rhs@,
    {
        RealNumber { bits: self.bits ^ rhs.bits }
    }

    /// Arithmetic shift right of the bit pattern.
    pub fn shr(self, n: u32) -> (r: Self)
        requires
            n < 32,
        ensures
            r@ == self@ >> n,
    {
        RealNumber { bits: self.bits >> n }
    }

    /// Shift left of the bit pattern; bits shifted out are lost.
    pub fn shl(self, n: u32) -> (r: Self)
        requires
            n < 32,
        ensures
            r@ == self@ << n,
    {
        RealNumber { bits: self.bits << n }
    }

    /// Product of two reals through a 64-bit intermediate.
    pub fn mul(self, rhs: Self) -> (r: Self)
        ensures
            r@ == real_mul_spec(self@, rhs@),
    {
        proof {
            lemma_product_fits(self.bits as int, rhs.bits as int);
        }
        let p: i64 = (self.bits as i64) * (rhs.bits as i64);
        let s: i64 = p >> 16u32;
        proof {
            lemma_shr16_i64(p);
        }
        RealNumber { bits: #[verifier::truncate] (s as i32) }
    }

    /// Quotient of two reals, saturating when `|a| >> 14 >= |b|` (which covers `b == 0`).
    pub fn div(self, rhs: Self) -> (r: Self)
        ensures
            r@ == real_div_spec(self@, rhs@),
    {
        let a: i64 = self.bits as i64;
        let b: i64 = rhs.bits as i64;
        let abs_a: i64 = if a < 0 { -a } else { a };
        let abs_b: i64 = if b < 0 { -b } else { b };
        let negative = (a < 0) != (b < 0);
        if abs_a / 16384 >= abs_b {
            if negative {
                RealNumber { bits: i32::MIN }
            } else {
                RealNumber { bits: i32::MAX }
            }
        } else {
            proof {
                lemma_div_fits(abs_a as int, abs_b as int);
            }
            let q: i64 = (abs_a * 65536) / abs_b;
            if negative {
                RealNumber { bits: (-q) as i32 }
            } else {
                RealNumber { bits: q as i32 }
            }
        }
    }

    /// Division of the bit pattern by an integer, rounding towards zero.
    pub fn div_int(self, rhs: i32) -> (r: Self)
        requires
            rhs > 0,
        ensures
            r@ == (if self@ < 0 { -(abs_int(self@ as int) / rhs as int) } else { self@ as int / rhs as int }),
    {
        if self.bits < 0 {
            let m: i64 = -(self.bits as i64);
            let q: i64 = m / (rhs as i64);
            RealNumber { bits: (-q) as i32 }
        } else {
            RealNumber { bits: self.bits / rhs }
        }
    }

    pub fn lt(self, rhs: Self) -> (r: bool)
        ensures
            r == (self@ < rhs@),
    {
        self.bits < rhs.bits
    }

    pub fn le(self, rhs: Self) -> (r: bool)
        ensures
            r == (self@ <= rhs@),
    {
        self.bits <= rhs.bits
    }

    pub fn gt(self, rhs: Self) -> (r: bool)
        ensures
            r == (self@ > rhs@),
    {
        self.bits > rhs.bits
    }

    pub fn ge(self, rhs: Self) -> (r: bool)
        ensures
            r == (self@ >= rhs@),
    {
        self.bits >= rhs.bits
    }

    pub fn max(self, rhs: Self) -> (r: Self)
        ensures
            r@ == (if self@ >= rhs@ { self@ } else { rhs@ }),
    {
        if self.bits >= rhs.bits { self } else { rhs }
    }

    pub fn min(self, rhs: Self) -> (r: Self)
        ensures
            r@ == (if self@ <= rhs@ { self@ } else { rhs@ }),
    {
        if self.bits <= rhs.bits { self } else { rhs }
    }
}

proof fn lemma_shr16(x: i32)
    ensures
        x >> 16u32 == x as int / 65536,
{
    assert(x >> 16u32 == x / 65536) by (bit_vector);
}

proof fn lemma_shr16_i64(x: i64)
    ensures
        x >> 16u32 == x as int / 65536,
{
    assert(x >> 16u32 == x / 65536) by (bit_vector);
}

proof fn lemma_product_fits(a: int, b: int)
    requires
        i32::MIN <= a <= i32::MAX,
        i32::MIN <= b <= i32::MAX,
    ensures
        i64::MIN <= a * b <= i64::MAX,
{
    assert(-4611686018427387904 <= a * b <= 4611686018427387904) by (nonlinear_arith)
        requires
            -2147483648 <= a <= 2147483648,
            -2147483648 <= b <= 2147483648,
    ;
}

proof fn lemma_div_fits(a: int, b: int)
    requires
        0 <= a <= 2147483648,
        0 <= b <= 2147483648,
        a / 16384 < b,
    ensures
        0 <= a * 65536 / b < 2147483648,
        a * 65536 <= 140737488355328,
{
    assert(a < (b + 1) * 16384) by (nonlinear_arith)
        requires
            a / 16384 < b,
            0 <= a,
    ;
    assert(a * 65536 < (b + 1) * 1073741824) by (nonlinear_arith)
        requires
            a < (b + 1) * 16384,
    ;
    assert(a * 65536 / b < 2147483648) by (nonlinear_arith)
        requires
            a * 65536 < (b + 1) * 1073741824,
            b >= 1,
            a >= 0,
    ;
    assert(0 <= a * 65536 / b) by (nonlinear_arith)
        requires
            a >= 0,
            b >= 1,
    ;
    assert(a * 65536 <= 140737488355328) by (nonlinear_arith)
        requires
            0 <= a <= 2147483648,
    ;
}


/// Dividing by a real and multiplying back gives the dividend again, or one unit in the
/// last place below it, whenever the division does not saturate and the divisor is at most
/// 1.0 in magnitude. (For larger divisors the quotient loses more than a unit: `a` =
/// 1048831, `b` = 16777216 come back as 1048576.)
pub proof fn lemma_div_mul_round_trip(a: i32, b: i32)
    requires
        b != 0,
        !real_div_saturates(a, b),
        abs_int(b as int) <= 65536,
    ensures
        a - 1 <= real_mul_spec(real_div_spec(a, b), b) <= a,
{
    let aa = abs_int(a as int);
    let bb = abs_int(b as int);
    lemma_div_fits(aa, bb);
    let qq = aa * 65536 / bb;
    let rr = aa * 65536 - qq * bb;
    assert(0 <= rr < bb) by (nonlinear_arith)
        requires
            qq == aa * 65536 / bb,
            rr == aa * 65536 - qq * bb,
            bb > 0,
            aa >= 0,
    ;
    let sa: int = if a < 0 { -1 } else { 1 };
    let q: int = real_div_spec(a, b) as int;
    assert(q == if (a < 0) != (b < 0) { -qq } else { qq });
    assert(q * (b as int) == a as int * 65536 - sa * rr) by (nonlinear_arith)
        requires
            q == (if (a < 0) != (b < 0) { -qq } else { qq }),
            rr == aa * 65536 - qq * bb,
            aa == (if a < 0 { -(a as int) } else { a as int }),
            bb == (if b < 0 { -(b as int) } else { b as int }),
            sa == (if a < 0 { -1int } else { 1 }),
    ;
    let p = a as int * 65536 - sa * rr;
    assert(a as int - 1 <= p / 65536 <= a as int) by (nonlinear_arith)
        requires
            p == a as int * 65536 - sa * rr,
            0 <= rr < 65536,
            sa == 1 || (sa == -1 && rr >= 0),
            sa == -1 ==> a < 0,
    ;
    if a < 0 {
        assert(p / 65536 == a as int) by (nonlinear_arith)
            requires
                p == a as int * 65536 + rr,
                0 <= rr < 65536,
        ;
    }
}

} // verus!
