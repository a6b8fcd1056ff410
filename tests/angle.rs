use doom_renderer::number::RealNumber;
use doom_renderer::rendering::types::{Angle, Point2D};

#[test]
fn angle_from_points() {
    let p1 = Point2D::new(RealNumber::new(-736), RealNumber::new(-128));
    let p2 = Point2D::new(RealNumber::new(-864), RealNumber::new(-96));
    let angle = Angle::from_points(&p1, &p2);
    assert_eq!(angle.to_u32(), 2314942560);

    let p1 = Point2D::new(RealNumber::new(-768), RealNumber::new(-192));
    let angle = Angle::from_points(&p1, &p2);
    assert_eq!(angle.to_u32(), 3758096384);
}

use doom_renderer::rendering::tables::{fine_sine, fine_tangent, tan_to_angle, fine_cosine};

fn point(x: i32, y: i32) -> Point2D {
    Point2D::new(RealNumber::new(x), RealNumber::new(y))
}

#[test]
fn angle_to_same_point_is_zero() {
    let p = point(-736, -128);
    assert_eq!(Angle::from_points(&p, &p).to_u32(), 0);
}

#[test]
fn angle_reversed_turns_half() {
    let pairs = [((10, 7), (0, 0)), ((3, 9), (-5, 2)), ((-20, -3), (0, 0)), ((-4, -30), (2, 1)), ((5, -40), (0, 0))];
    for ((ax, ay), (bx, by)) in pairs {
        let a = point(ax, ay);
        let b = point(bx, by);
        let d = Angle::from_points(&a, &b).sub(Angle::from_points(&b, &a));
        assert_eq!(d.to_u32(), 0x8000_0000);
    }
}

#[test]
fn angle_octant_with_flipped_bit_is_no_reflection() {
    // Vector (128, -32): the octant built with the most significant bit flipped.
    let a = point(-736, -128);
    let b = point(-864, -96);
    let d = Angle::from_points(&a, &b).sub(Angle::from_points(&b, &a));
    assert_ne!(d.to_u32(), 0x8000_0000);
}

#[test]
fn fine_shift_round_trip() {
    for x in [0usize, 1, 2047, 4096, 8191] {
        assert_eq!(Angle::from_fine_shift(x).fineshift().to_u32() as usize, x);
    }
}

#[test]
fn trig_table_values() {
    assert_eq!(fine_sine(0), 25);
    assert_eq!(fine_sine(2048), 65535);
    assert_eq!(fine_sine(4096), -25);
    assert_eq!(fine_cosine(0), 65535);
    assert_eq!(fine_tangent(0), -170910304);
    assert_eq!(fine_tangent(2048), 25);
    assert_eq!(tan_to_angle(512), 167458912);
    assert_eq!(tan_to_angle(2048), 536870912);
}

#[test]
fn point_distance_by_triangle() {
    let a = point(0, 0);
    let b = point(3, 4);
    assert_eq!(a.distance(b).to_bits(), 327591);
    assert_eq!(a.distance(a).to_bits(), 0);
}

#[test]
fn angle_arithmetic_wraps() {
    let a = Angle::new(0xF000_0000);
    assert_eq!(a.add(Angle::angle90()).to_u32(), 0x3000_0000);
    assert_eq!(Angle::new(0).sub(Angle::angle90()).to_u32(), 0xC000_0000);
    assert_eq!(Angle::new(5).flip().to_u32(), 0x8000_0005);
    assert_eq!(Angle::angle90().neg().to_u32(), 0xC000_0000);
    assert_eq!(Angle::angle90().scale(2).to_u32(), 0x8000_0000);
}
