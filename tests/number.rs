use doom_renderer::number::RealNumber;

#[test]
fn real_division_saturates_positive() {
    let r = RealNumber::new_from_bits(1 << 20).div(RealNumber::new_from_bits(1));
    assert_eq!(r.to_bits(), i32::MAX);
}

#[test]
fn real_division_saturates_negative() {
    let r = RealNumber::new_from_bits(-(1 << 20)).div(RealNumber::new_from_bits(1));
    assert_eq!(r.to_bits(), i32::MIN);
}

#[test]
fn real_division_by_zero_saturates() {
    assert_eq!(RealNumber::new(3).div(RealNumber::new(0)).to_bits(), i32::MAX);
    assert_eq!(RealNumber::new(-3).div(RealNumber::new(0)).to_bits(), i32::MIN);
}

#[test]
fn real_division_exact_values() {
    assert_eq!(RealNumber::new(1).div(RealNumber::new(2)).to_bits(), 32768);
    assert_eq!(RealNumber::new(-7).div(RealNumber::new(2)).to_bits(), -229376);
    assert_eq!(RealNumber::new(1).div(RealNumber::new(3)).to_bits(), 21845);
    assert_eq!(RealNumber::new(-1).div(RealNumber::new(3)).to_bits(), -21845);
}

#[test]
fn real_multiplication_values() {
    assert_eq!(RealNumber::new(3).mul(RealNumber::new(2)).to_bits(), 6 * 65536);
    assert_eq!(RealNumber::new(-3).mul(RealNumber::new_from_bits(32768)).to_bits(), -3 * 32768);
    assert_eq!(RealNumber::new_from_bits(-1).mul(RealNumber::new_from_bits(1)).to_bits(), -1);
}

#[test]
fn real_round_trip_within_one_unit() {
    let cases: [(i32, i32); 5] = [(65536 * 5 + 3, 65536), (123456, -40000), (-98765, 12), (7, 65536), (-200000, 12345)];
    for (a, b) in cases {
        let q = RealNumber::new_from_bits(a).div(RealNumber::new_from_bits(b));
        let back = q.mul(RealNumber::new_from_bits(b)).to_bits();
        assert!(back == a || back == a - 1, "a={} b={} back={}", a, b, back);
    }
}

#[test]
fn real_round_trip_loses_more_for_large_divisors() {
    let a = 1048831;
    let b = 16777216;
    let back = RealNumber::new_from_bits(a).div(RealNumber::new_from_bits(b)).mul(RealNumber::new_from_bits(b));
    assert_eq!(back.to_bits(), 1048576);
}

#[test]
fn real_integer_part_rounds_down() {
    assert_eq!(RealNumber::new_from_bits(-1).to_int(), -1);
    assert_eq!(RealNumber::new_from_bits(65535).to_int(), 0);
    assert_eq!(RealNumber::new(-5).to_int(), -5);
}

#[test]
fn real_addition_wraps() {
    let r = RealNumber::new_from_bits(i32::MAX).add(RealNumber::new_from_bits(1));
    assert_eq!(r.to_bits(), i32::MIN);
    assert_eq!(RealNumber::new(2).sub(RealNumber::new(5)).to_bits(), -3 * 65536);
    assert_eq!(RealNumber::new_from_bits(i32::MIN).neg().to_bits(), i32::MIN);
}

#[test]
fn real_shifts_and_division_by_integer() {
    assert_eq!(RealNumber::new_from_bits(-8).shr(2).to_bits(), -2);
    assert_eq!(RealNumber::new_from_bits(3).shl(4).to_bits(), 48);
    assert_eq!(RealNumber::new_from_bits(-7).div_int(2).to_bits(), -3);
    assert_eq!(RealNumber::new_from_bits(7).div_int(2).to_bits(), 3);
}
