use doom_renderer::number::RealNumber;
use doom_renderer::rendering::column::draw_column;

#[test]
fn column_drawer_samples_and_wraps() {
    let mut screen = vec![0u8; 64000];
    let column = [10u8, 20, 30, 40];
    let color_map: Vec<u8> = (0..256).map(|i| ((i + 1) % 256) as u8).collect();
    draw_column(&mut screen, 5, 98, 102, &column, &color_map, RealNumber::new(0), RealNumber::new(1), 100);
    assert_eq!(screen[98 * 320 + 5], 31);
    assert_eq!(screen[99 * 320 + 5], 41);
    assert_eq!(screen[100 * 320 + 5], 11);
    assert_eq!(screen[101 * 320 + 5], 21);
    assert_eq!(screen[102 * 320 + 5], 31);
    assert_eq!(screen[97 * 320 + 5], 0);
    assert_eq!(screen[103 * 320 + 5], 0);
    assert_eq!(screen[100 * 320 + 6], 0);
    assert_eq!(screen.iter().filter(|&&p| p != 0).count(), 5);
}

#[test]
fn column_drawer_half_scale() {
    let mut screen = vec![0u8; 64000];
    let column = [1u8, 2, 3, 4, 5, 6, 7, 8];
    let color_map: Vec<u8> = (0..256).map(|i| i as u8).collect();
    draw_column(&mut screen, 0, 100, 103, &column, &color_map, RealNumber::new(2), RealNumber::new_from_bits(32768), 100);
    assert_eq!(&[screen[100 * 320], screen[101 * 320], screen[102 * 320], screen[103 * 320]], &[3, 3, 4, 4]);
}
