use doom_renderer::graphics::flats::FlatNumber;
use doom_renderer::level::bounding_box::BoundingBox;
use doom_renderer::level::nodes::Node;
use doom_renderer::number::RealNumber;
use doom_renderer::rendering::bsp::planes::{check_plane, find_plane_index, Planes};
use doom_renderer::rendering::bsp::point_on_side;
use doom_renderer::rendering::bsp::solid_seg::SolidSegs;
use doom_renderer::rendering::types::Point3D;

fn node(x: i32, y: i32, dx: i32, dy: i32) -> Node {
    let b = BoundingBox::new_empty();
    Node {
        x: RealNumber::new(x),
        y: RealNumber::new(y),
        dx: RealNumber::new(dx),
        dy: RealNumber::new(dy),
        bbox: [b, b],
        children: [0, 0],
    }
}

fn at(x: i32, y: i32) -> Point3D {
    Point3D::new(RealNumber::new(x), RealNumber::new(y), RealNumber::new(41))
}

#[test]
fn bsp_root_side_of_vertical_partition() {
    let n = node(0, 0, 0, 1);
    assert_eq!(point_on_side(&at(864, -96), &n), 0);
    assert_eq!(point_on_side(&at(-864, -96), &n), 1);
}

#[test]
fn point_on_side_mirror() {
    let cases = [(0, 0, 3, 5), (10, -4, -7, 2), (0, 0, 1, 0), (5, 5, 0, -3)];
    let points = [(100, 7), (-50, 80), (3, -9), (-200, -1)];
    for (x, y, dx, dy) in cases {
        for (px, py) in points {
            let p = at(px, py);
            let a = point_on_side(&p, &node(x, y, dx, dy));
            let b = point_on_side(&p, &node(x, y, -dx, -dy));
            assert!(a < 2 && b < 2);
            assert_eq!(a + b, 1, "node ({}, {}, {}, {}) point ({}, {})", x, y, dx, dy, px, py);
        }
    }
}

#[test]
fn visplane_split_behind_an_occluder() {
    let mut planes = Planes::new(200);
    let sky = FlatNumber(99);
    let height = RealNumber::new(0);
    let first = find_plane_index(sky, height, FlatNumber(1), 160, &mut planes);
    let again = find_plane_index(sky, height, FlatNumber(1), 160, &mut planes);
    assert_eq!(first, Some(0));
    assert_eq!(again, Some(0));
    assert_eq!(check_plane(&mut planes, 0, 100, 120), Some(0));
    planes.visible_planes[0].top[110] = 150;
    planes.visible_planes[0].bottom[110] = 199;
    let split = check_plane(&mut planes, 0, 100, 120);
    assert_eq!(split, Some(1));
    let p = &planes.visible_planes[1];
    assert_eq!((p.min_x, p.max_x, p.light_level), (100, 120, 160));
    assert!(p.top.iter().all(|&t| t == 0xff));
}

#[test]
fn check_plane_extends_at_the_boundary() {
    let mut planes = Planes::new(200);
    let index = find_plane_index(FlatNumber(9), RealNumber::new(8), FlatNumber(2), 100, &mut planes).unwrap();
    assert_eq!(check_plane(&mut planes, index, 10, 20), Some(index));
    planes.visible_planes[index].top[15] = 120;
    planes.visible_planes[index].bottom[15] = 130;
    assert_eq!(check_plane(&mut planes, index, 21, 30), Some(index));
    assert_eq!(planes.visible_planes.len(), 1);
    assert_eq!((planes.visible_planes[index].min_x, planes.visible_planes[index].max_x), (10, 30));
}

#[test]
fn sky_planes_share_one_key() {
    let mut planes = Planes::new(200);
    let sky = FlatNumber(5);
    let a = find_plane_index(sky, RealNumber::new(128), sky, 160, &mut planes);
    let b = find_plane_index(sky, RealNumber::new(256), sky, 96, &mut planes);
    assert_eq!(a, b);
    assert_eq!(planes.visible_planes[0].height.to_bits(), 0);
    assert_eq!(planes.visible_planes[0].light_level, 0);
}

#[test]
fn visplane_pool_is_bounded() {
    let mut planes = Planes::new(200);
    for k in 0..128 {
        assert_eq!(find_plane_index(FlatNumber(999), RealNumber::new(k), FlatNumber(1), 0, &mut planes), Some(k as usize));
    }
    assert_eq!(find_plane_index(FlatNumber(999), RealNumber::new(500), FlatNumber(1), 0, &mut planes), None);
}

#[test]
fn solid_segs_fragments_and_merging() {
    let mut segs = SolidSegs::new(320);
    assert_eq!(segs.segs.len(), 2);
    segs.add_solid(100, 120);
    let fragments = segs.visible_fragments(90, 130);
    let pieces: Vec<(i32, i32)> = fragments.iter().map(|c| (c.first, c.last)).collect();
    assert_eq!(pieces, vec![(90, 99), (121, 130)]);
    segs.add_solid(121, 200);
    assert_eq!(segs.segs.len(), 3);
    assert_eq!((segs.segs[1].first, segs.segs[1].last), (100, 200));
    segs.add_solid(0, 99);
    assert_eq!(segs.segs.len(), 2);
    assert_eq!(segs.segs[0].last, 200);
    segs.add_solid(201, 319);
    assert_eq!(segs.segs.len(), 1);
    assert!(segs.visible_fragments(0, 319).is_empty());
}
