use doom_renderer::level::bounding_box::BoundingBox;
use doom_renderer::level::linedefs::SlopeType;
use doom_renderer::level::{blockmap, linedefs, nodes, vertices};
use doom_renderer::map_object::{Player, PlayerState};
use doom_renderer::number::RealNumber;
use doom_renderer::options::{DetailLevel, Options};
use doom_renderer::rendering::types::{Angle, Point2D};

fn i16s(values: &[i16]) -> Vec<u8> {
    values.iter().flat_map(|v| v.to_le_bytes()).collect()
}

#[test]
fn vertices_ignore_a_partial_record() {
    let mut data = i16s(&[1, -2, 300, 4]);
    data.push(9);
    let v = vertices::load(&data);
    assert_eq!(v.len(), 2);
    assert_eq!(v[0].x.to_bits(), 1 << 16);
    assert_eq!(v[0].y.to_bits(), -2 << 16);
    assert_eq!(v[1].x.to_bits(), 300 << 16);
}

#[test]
fn line_slopes_and_boxes() {
    let v = vertices::load(&i16s(&[0, 0, 10, 0, 10, 10, 0, 10, 5, -5]));
    let data = i16s(&[
        0, 1, 0, 0, 0, 0, -1, //
        1, 2, 16, 0, 0, 1, 2, //
        0, 2, 8, 0, 0, 3, -1, //
        3, 4, 0, 0, 0, 4, -1,
    ]);
    let lines = linedefs::load(&data, &v).expect("lines");
    assert_eq!(lines.len(), 4);
    assert_eq!(lines[0].slope_type, SlopeType::Horizontal);
    assert_eq!(lines[1].slope_type, SlopeType::Vertical);
    assert_eq!(lines[2].slope_type, SlopeType::Positive);
    assert_eq!(lines[3].slope_type, SlopeType::Negative);
    assert_eq!(lines[1].back_side_index, Some(2));
    assert_eq!(lines[0].back_side_index, None);
    assert!(lines[1].dont_peg_bottom_texture() && !lines[1].dont_peg_top_texture());
    assert!(lines[2].dont_peg_top_texture());
    assert_eq!(lines[3].bbox.top().to_bits(), 10 << 16);
    assert_eq!(lines[3].bbox.bottom().to_bits(), -5 << 16);
    assert_eq!(lines[3].bbox.left().to_bits(), 0);
    assert_eq!(lines[3].bbox.right().to_bits(), 5 << 16);
    assert!(linedefs::load(&i16s(&[0, 9, 0, 0, 0, 0, -1]), &v).is_none());
}

#[test]
fn bounding_box_expands() {
    let mut b = BoundingBox::new_empty();
    b.expand(&Point2D::new(RealNumber::new(3), RealNumber::new(-4)));
    b.expand(&Point2D::new(RealNumber::new(-1), RealNumber::new(7)));
    assert_eq!((b.left().to_bits(), b.right().to_bits()), (-1 << 16, 3 << 16));
    assert_eq!((b.bottom().to_bits(), b.top().to_bits()), (-4 << 16, 7 << 16));
    assert_eq!(b.get(2).to_bits(), -1 << 16);
}

#[test]
fn nodes_and_blockmap_records() {
    let data = i16s(&[64, -32, 0, 128, 10, 0, 0, 64, 20, 5, 1, 9, -32768, 3]);
    let n = nodes::load(&data);
    assert_eq!(n.len(), 1);
    assert_eq!((n[0].x().to_bits(), n[0].y().to_bits()), (64 << 16, -32 << 16));
    assert_eq!((n[0].dx().to_bits(), n[0].dy().to_bits()), (0, 128 << 16));
    assert_eq!(n[0].children(), &[0x8000usize, 3]);
    assert_eq!(n[0].bbox[0].top().to_bits(), 10 << 16);
    assert_eq!(n[0].bbox[1].right().to_bits(), 9 << 16);
    let b = blockmap::load(&i16s(&[-128, 64, 12, 7, 0])).expect("blockmap");
    assert_eq!((b.origin_x().to_bits(), b.origin_y().to_bits()), (-128 << 16, 64 << 16));
    assert_eq!((b.width().to_bits(), b.height().to_bits()), (12 << 16, 7 << 16));
    assert!(blockmap::load(&[0, 0, 0]).is_none());
}

#[test]
fn player_and_options() {
    let mut p = Player::new();
    assert_eq!(p.state, PlayerState::Dead);
    p.set_position(RealNumber::new(1), RealNumber::new(2), RealNumber::new(3));
    p.set_angle(Angle::angle90());
    assert_eq!((p.x().to_bits(), p.y().to_bits(), p.z().to_bits()), (1 << 16, 2 << 16, 3 << 16));
    assert_eq!(p.angle().to_u32(), 0x4000_0000);
    assert_eq!((p.extra_light(), p.fixed_color_map(), p.viewz().to_bits()), (0, 0, 0));
    let o = Options::new();
    assert_eq!(o.detail, DetailLevel::High);
    assert_eq!((o.show_messages, o.screen_size), (true, 8));
}
