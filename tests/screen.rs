use doom_renderer::rendering::patch::Patch;
use doom_renderer::rendering::screen::{draw_patch, rgb_to_rgba};

/// A patch 2 wide and 3 high with offsets (1, 2): column 0 has pixels 7, 8 from row 1.
fn patch() -> Patch {
    let mut p = Vec::new();
    for v in [2i16, 3, 1, 2] {
        p.extend_from_slice(&v.to_le_bytes());
    }
    p.extend_from_slice(&16i32.to_le_bytes());
    p.extend_from_slice(&22i32.to_le_bytes());
    p.extend_from_slice(&[1, 2, 0, 7, 8, 0]);
    p.push(0xff);
    Patch::new(p)
}

#[test]
fn patch_is_copied_at_its_offsets() {
    let mut screen = vec![0u8; 64000];
    assert!(draw_patch(&mut screen, 11, 22, &patch()));
    assert_eq!(screen[21 * 320 + 10], 7);
    assert_eq!(screen[22 * 320 + 10], 8);
    assert_eq!(screen.iter().filter(|&&p| p != 0).count(), 2);
}

#[test]
fn bad_patch_is_skipped() {
    let mut screen = vec![0u8; 64000];
    assert!(!draw_patch(&mut screen, 0, 10, &patch()));
    assert!(!draw_patch(&mut screen, 320, 10, &patch()));
    assert!(!draw_patch(&mut screen, 10, 200, &patch()));
    assert!(screen.iter().all(|&p| p == 0));
}

#[test]
fn palette_gets_opaque_alpha() {
    let playpal: Vec<u8> = (0..768).map(|i| (i % 251) as u8).collect();
    let rgba = rgb_to_rgba(&playpal);
    assert_eq!(rgba.len(), 1024);
    assert_eq!(&rgba[0..8], &[0, 1, 2, 255, 3, 4, 5, 255]);
    assert_eq!(&rgba[1020..1024], &[765 % 251, 766 % 251, 767 % 251, 255].map(|v: i32| v as u8));
}
