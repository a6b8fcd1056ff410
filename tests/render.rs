use doom_renderer::graphics::flats::FlatData;
use doom_renderer::graphics::textures::{GraphicsError, TextureData, TextureNumber};
use doom_renderer::level::{Level, LevelError};
use doom_renderer::map_object::Player;
use doom_renderer::number::RealNumber;
use doom_renderer::rendering::bsp::BspRenderer;
use doom_renderer::rendering::types::Angle;
use doom_renderer::rendering::{ViewConfiguration, ViewWindow};
use doom_renderer::wad::LumpStore;

fn name8(name: &str) -> [u8; 8] {
    let mut padded = [0u8; 8];
    padded[..name.len()].copy_from_slice(name.as_bytes());
    padded
}

fn wad(lumps: &[(&str, Vec<u8>)]) -> Vec<u8> {
    let mut data: Vec<u8> = Vec::new();
    let mut directory: Vec<u8> = Vec::new();
    let mut offset = 12usize;
    for (name, bytes) in lumps {
        directory.extend_from_slice(&(offset as i32).to_le_bytes());
        directory.extend_from_slice(&(bytes.len() as i32).to_le_bytes());
        directory.extend_from_slice(&name8(name));
        data.extend_from_slice(bytes);
        offset += bytes.len();
    }
    let mut file = Vec::new();
    file.extend_from_slice(b"IWAD");
    file.extend_from_slice(&(lumps.len() as i32).to_le_bytes());
    file.extend_from_slice(&(offset as i32).to_le_bytes());
    file.extend_from_slice(&data);
    file.extend_from_slice(&directory);
    file
}

fn i16s(values: &[i16]) -> Vec<u8> {
    values.iter().flat_map(|v| v.to_le_bytes()).collect()
}

/// Texture records; a record with a patch places patch 0 at its origin.
fn texture_lump(names: &[(&str, i16, i16, bool)]) -> Vec<u8> {
    let mut out = Vec::new();
    out.extend_from_slice(&(names.len() as u32).to_le_bytes());
    let mut offset = 4 + 4 * names.len();
    for (_, _, _, with_patch) in names {
        out.extend_from_slice(&(offset as u32).to_le_bytes());
        offset += 22 + if *with_patch { 10 } else { 0 };
    }
    for (name, width, height, with_patch) in names {
        out.extend_from_slice(&name8(name));
        out.extend_from_slice(&0u32.to_le_bytes());
        out.extend_from_slice(&width.to_le_bytes());
        out.extend_from_slice(&height.to_le_bytes());
        out.extend_from_slice(&0i32.to_le_bytes());
        if *with_patch {
            out.extend_from_slice(&1i16.to_le_bytes());
            out.extend_from_slice(&i16s(&[0, 0, 0, 1, 0]));
        } else {
            out.extend_from_slice(&0i16.to_le_bytes());
        }
    }
    out
}

/// A 128 by 128 patch whose texel at row `r` is `r` in every column.
fn wall_patch() -> Vec<u8> {
    let mut p = i16s(&[128, 128, 0, 0]);
    let column_size = 4 + 128 + 1;
    for c in 0..128usize {
        p.extend_from_slice(&((8 + 4 * 128 + c * column_size) as i32).to_le_bytes());
    }
    for _ in 0..128 {
        p.extend_from_slice(&[0, 128, 0]);
        p.extend((0..128).map(|r| r as u8));
        p.extend_from_slice(&[0, 0xff]);
    }
    p
}

fn side(mid: &str, sector: i16) -> Vec<u8> {
    let mut out = i16s(&[0, 0]);
    out.extend_from_slice(&name8("-"));
    out.extend_from_slice(&name8("-"));
    out.extend_from_slice(&name8(mid));
    out.extend_from_slice(&sector.to_le_bytes());
    out
}

/// A square room 256 units wide: floor 0, ceiling 128, light 160, walls STARTAN1.
fn room_wad() -> Vec<u8> {
    room_wad_with("STARTAN1", "FLAT1", 3)
}

/// The room with another wall texture, another flat, and another last vertex of the
/// first line.
fn room_wad_with(wall: &str, flat: &str, last_vertex: i16) -> Vec<u8> {
    let vertexes = i16s(&[0, 0, 256, 0, 256, 256, 0, 256]);
    let linedefs = i16s(&[
        0, last_vertex, 1, 0, 0, 0, -1, //
        3, 2, 1, 0, 0, 1, -1, //
        2, 1, 1, 0, 0, 2, -1, //
        1, 0, 1, 0, 0, 3, -1,
    ]);
    let mut sidedefs = Vec::new();
    for _ in 0..4 {
        sidedefs.extend_from_slice(&side(wall, 0));
    }
    let mut sectors = i16s(&[0, 128]);
    sectors.extend_from_slice(&name8(flat));
    sectors.extend_from_slice(&name8("FLAT1"));
    sectors.extend_from_slice(&i16s(&[160, 0, 0]));
    let segs = i16s(&[
        0, 3, 0x4000, 0, 0, 0, //
        3, 2, 0, 1, 0, 0, //
        2, 1, -0x4000, 2, 0, 0, //
        1, 0, -0x8000, 3, 0, 0,
    ]);
    let ssectors = i16s(&[4, 0]);
    let blockmap = i16s(&[0, 0, 2, 2]);
    wad(&[
        ("PNAMES", {
            let mut p = 1u32.to_le_bytes().to_vec();
            p.extend_from_slice(&name8("WALL00_3"));
            p
        }),
        ("TEXTURE1", texture_lump(&[("AASHITTY", 64, 64, false), ("SKY1", 256, 128, false), ("STARTAN1", 128, 128, true)])),
        ("WALL00_3", wall_patch()),
        ("F_START", vec![]),
        ("FLAT1", vec![0; 4096]),
        ("F_SKY1", vec![0; 4096]),
        ("F_END", vec![]),
        ("MAP01", vec![]),
        ("THINGS", vec![]),
        ("LINEDEFS", linedefs),
        ("SIDEDEFS", sidedefs),
        ("VERTEXES", vertexes),
        ("SEGS", segs),
        ("SSECTORS", ssectors),
        ("NODES", vec![]),
        ("SECTORS", sectors),
        ("REJECT", vec![]),
        ("BLOCKMAP", blockmap),
    ])
}

fn load_room() -> (LumpStore, TextureData, FlatData, Level) {
    // The archive, the textures, the flats and map 1 of the room.
    let mut lumps = LumpStore::new();
    assert_eq!(lumps.add_file(room_wad()), Ok(()));
    let textures = match TextureData::init(&lumps) {
        Ok(t) => t,
        Err(e) => panic!("textures: {:?}", e),
    };
    let flats = FlatData::init(&lumps).expect("flats");
    let level = match Level::load(&lumps, &textures, &flats, 0, 1, 1) {
        Ok(l) => l,
        Err(e) => panic!("level: {:?}", e),
    };
    (lumps, textures, flats, level)
}

#[test]
fn level_counts_match_lump_records() {
    let (_lumps, textures, _flats, level) = load_room();
    assert_eq!(level.vertices().len(), 4);
    assert_eq!(level.line_defs().len(), 4);
    assert_eq!(level.side_defs().len(), 4);
    assert_eq!(level.sectors().len(), 1);
    assert_eq!(level.segs().len(), 4);
    assert_eq!(level.sub_sectors().len(), 1);
    assert_eq!(level.nodes().len(), 0);
    assert_eq!(level.sectors()[0].line_count, 4);
    assert_eq!(level.sectors()[0].light_level, 160);
    assert_eq!(level.sectors()[0].ceiling_height.to_bits(), 128 << 16);
    assert_eq!(level.sky_flat_number().0, 1);
    assert_eq!(level.side_defs()[0].mid_texture, TextureNumber(2));
    assert_eq!(textures.get_texture_number(b"STARTAN1"), Some(TextureNumber(2)));
    assert_eq!(textures.get_texture_number(b"startan1"), None);
    assert_eq!(textures.get_texture_number(b"-"), Some(TextureNumber(0)));
    assert_eq!(textures.get_texture_number(b"NOPE"), None);
    assert_eq!(textures.get_texture_height(TextureNumber(2)).to_bits(), 128 << 16);
    assert_eq!(textures.texture_width_mask[1], 255);
}

#[test]
fn sector_sound_origin_and_blocks() {
    let (_lumps, _textures, _flats, level) = load_room();
    let sector = &level.sectors()[0];
    assert_eq!(sector.soundorg.x.to_bits(), 128 << 16);
    assert_eq!(sector.soundorg.y.to_bits(), 128 << 16);
    assert_eq!(sector.blockbox.left().to_bits(), 0);
    assert_eq!(sector.blockbox.bottom().to_bits(), 0);
    assert_eq!(sector.blockbox.right().to_bits(), 1);
    assert_eq!(sector.blockbox.top().to_bits(), 1);
}

#[test]
fn missing_map_is_reported() {
    let mut lumps = LumpStore::new();
    assert_eq!(lumps.add_file(room_wad()), Ok(()));
    let textures = TextureData::init(&lumps).ok().expect("textures");
    let flats = FlatData::init(&lumps).expect("flats");
    assert!(matches!(Level::load(&lumps, &textures, &flats, 0, 1, 2), Err(LevelError::MissingLump)));
    assert!(matches!(Level::load(&lumps, &textures, &flats, 0, 1, 100), Err(LevelError::BadMapNumber)));
}

fn load_error(file: Vec<u8>) -> LevelError {
    let mut lumps = LumpStore::new();
    assert_eq!(lumps.add_file(file), Ok(()));
    let textures = TextureData::init(&lumps).ok().expect("textures");
    let flats = FlatData::init(&lumps).expect("flats");
    match Level::load(&lumps, &textures, &flats, 0, 1, 1) {
        Ok(_) => panic!("the level loaded"),
        Err(e) => e,
    }
}

#[test]
fn level_errors_name_the_broken_reference() {
    assert_eq!(load_error(room_wad_with("NOSUCH", "FLAT1", 3)), LevelError::MissingTexture);
    assert_eq!(load_error(room_wad_with("STARTAN1", "NOFLAT", 3)), LevelError::MissingFlat);
    assert_eq!(load_error(room_wad_with("STARTAN1", "FLAT1", 9)), LevelError::BadReference);
}

#[test]
fn texture_errors() {
    let mut lumps = LumpStore::new();
    assert_eq!(lumps.add_file(wad(&[("PNAMES", vec![5, 0, 0, 0, 1, 2])])), Ok(()));
    assert_eq!(TextureData::init(&lumps).err(), Some(GraphicsError::BadPatchNames));
    let mut lumps = LumpStore::new();
    assert_eq!(lumps.add_file(wad(&[("PNAMES", vec![0, 0, 0, 0])])), Ok(()));
    assert_eq!(TextureData::init(&lumps).err(), Some(GraphicsError::MissingLump));
    let mut lumps = LumpStore::new();
    let mut bad = texture_lump(&[("A", 8, 8, false)]);
    bad[4] = 200;
    assert_eq!(lumps.add_file(wad(&[("PNAMES", vec![0, 0, 0, 0]), ("TEXTURE1", bad)])), Ok(()));
    assert_eq!(TextureData::init(&lumps).err(), Some(GraphicsError::BadTextureDirectory));
}

#[test]
fn end_to_end_frame_in_a_square_room() {
    let (_lumps, textures, _flats, level) = load_room();
    let view = ViewWindow::new();
    assert_eq!(textures.textures[2].patches.len(), 1);
    let renderer = BspRenderer::new(&view);
    let mut player = Player::new();
    player.set_position(RealNumber::new(128), RealNumber::new(128), RealNumber::new(0));
    player.set_viewz(RealNumber::new(41));
    player.set_angle(Angle::new(0));
    let frame = renderer.render_player_view(&player, &level, &view, &textures);
    assert_eq!(frame.visited, vec![0]);
    // Every column is closed by a wall.
    for x in 0..320 {
        assert_eq!(frame.planes.ceiling_clip[x], 200);
        assert_eq!(frame.planes.floor_clip[x], -1);
    }
    // One floor and one ceiling plane, the ceiling above the centre row, the floor below.
    assert_eq!(frame.planes.visible_planes.len(), 2);
    let floor = &frame.planes.visible_planes[0];
    let ceiling = &frame.planes.visible_planes[1];
    assert_eq!(floor.height.to_bits(), 0);
    assert_eq!(ceiling.height.to_bits(), 128 << 16);
    let mut floor_columns = 0;
    for x in 0..320 {
        if floor.top[x] != 0xff {
            assert!(floor.top[x] > 100 && floor.bottom[x] == 199);
            floor_columns += 1;
        }
        if ceiling.top[x] != 0xff {
            assert!(ceiling.top[x] == 0 && ceiling.bottom[x] < 100);
        }
    }
    for plane in &frame.planes.visible_planes {
        for x in 0..320 {
            assert!(plane.top[x] == 0xff || plane.bottom[x] >= plane.top[x]);
        }
    }
    assert_eq!(floor_columns, 320, "columns {:?}", frame.columns.iter().map(|c| (c.x, c.yl, c.yh)).take(5).collect::<Vec<_>>());
    // The wall at the centre column is STARTAN1, spanning the centre row.
    let centre: Vec<_> = frame.columns.iter().filter(|c| c.x == 160).collect();
    assert_eq!(centre.len(), 1);
    assert_eq!(centre[0].texture, TextureNumber(2));
    assert!(centre[0].yl <= 100 && centre[0].yh >= 100);
    assert_eq!(frame.columns.len(), 320);
    assert_eq!(frame.draw_segs.segs.len(), frame.draw_segs.segs.iter().filter(|d| d.x1 <= d.x2).count());
    // The planes turn into spans: the floor rows below the walls, lit darker with depth.
    let maps = doom_renderer::graphics::color_maps::ColorMapData { color_maps: vec![0; 32 * 256] };
    let light = doom_renderer::graphics::light_table::LightTable::init(&maps);
    let draws = renderer.draw_planes(&frame, &view, player.viewz(), player.angle(), level.sky_flat_number(), level.sky_texture, &light);
    assert!(draws.sky_columns.is_empty());
    assert!(!draws.spans.is_empty());
    assert!(draws.spans.iter().all(|s| s.x1 <= s.x2 && s.y < 200 && s.color_map < 32));
    assert!(draws.spans.iter().any(|s| s.plane == 0 && s.y == 199 && s.x1 == 0 && s.x2 == 319));
    // Drawing the walls through identity color maps shows the texel rows of STARTAN1.
    let identity: Vec<u8> = (0..32 * 256).map(|i| (i % 256) as u8).collect();
    let maps = doom_renderer::graphics::color_maps::ColorMapData { color_maps: identity };
    let patches = textures.load_patches(&_lumps);
    assert_eq!(patches.len(), 1);
    assert!(patches[0].is_some());
    let mut screen = vec![0xeeu8; 64000];
    doom_renderer::rendering::screen::draw_walls(&mut screen, &frame.columns, &view, &textures, &patches, &maps);
    let c = centre[0];
    assert_eq!(c.texture_mid.to_bits(), 87 << 16);
    for y in c.yl..=c.yh {
        let frac = (c.texture_mid.to_bits() as i64 + (y as i64 - 100) * c.iscale.to_bits() as i64) as i32;
        let texel = (frac >> 16).rem_euclid(128) as u8;
        assert_eq!(screen[y as usize * 320 + 160], texel, "row {}", y);
    }
    // The wall runs above the screen: row 0 shows texel 6 (87 - 100 / 1.25, less the
    // approximate distance's excess).
    assert_eq!(c.yl, 0);
    assert_eq!(screen[160], 6);
    assert_eq!(screen[(c.yh as usize + 1) * 320 + 160], 0xee);
}

#[test]
fn view_sizes() {
    let mut config = ViewConfiguration::new();
    let view = config.create_view();
    assert_eq!((view.width, view.height), (288, 144));
    config.set_blocks(11);
    assert!(config.refresh_view_needed());
    let view = config.create_view();
    assert!(!config.refresh_view_needed());
    assert_eq!((view.width, view.height, view.centerx, view.centery), (320, 200, 160, 100));
    config.set_detail(1);
    let view = config.create_view();
    assert_eq!((view.width, view.scaled_width, view.detail_shift), (160, 320, 1));
    config.set_blocks(3);
    config.set_detail(0);
    let view = config.create_view();
    assert_eq!((view.width, view.height), (96, 48));
}

#[test]
fn view_edges_map_to_screen_edges() {
    let view = ViewWindow::new();
    let renderer = BspRenderer::new(&view);
    assert_eq!(renderer.clip_angle.to_u32(), 537395200);
    assert!(renderer.view_angle_to_x.iter().all(|&x| 0 <= x && x <= 320));
    assert_eq!(renderer.view_angle_to_x[0], 320);
    assert_eq!(renderer.view_angle_to_x[4095], 0);
    assert_eq!(renderer.view_angle_to_x[1024], 320);
    assert_eq!(renderer.view_angle_to_x[2048], 160);
    assert_eq!(renderer.view_angle_to_x[3072], 1);
    assert_eq!(renderer.x_to_view_angle.len(), 321);
}

/// The room split by the line x = 128 into an east and a west sub-sector under one node.
fn split_room_wad() -> Vec<u8> {
    let vertexes = i16s(&[0, 0, 256, 0, 256, 256, 0, 256, 128, 0, 128, 256]);
    let linedefs = i16s(&[
        0, 3, 1, 0, 0, 0, -1, //
        3, 2, 1, 0, 0, 1, -1, //
        2, 1, 1, 0, 0, 2, -1, //
        1, 0, 1, 0, 0, 3, -1,
    ]);
    let mut sidedefs = Vec::new();
    for _ in 0..4 {
        sidedefs.extend_from_slice(&side("STARTAN1", 0));
    }
    let mut sectors = i16s(&[0, 128]);
    sectors.extend_from_slice(&name8("FLAT1"));
    sectors.extend_from_slice(&name8("FLAT1"));
    sectors.extend_from_slice(&i16s(&[160, 0, 0]));
    let segs = i16s(&[
        5, 2, 0, 1, 0, 128, //
        2, 1, -0x4000, 2, 0, 0, //
        1, 4, -0x8000, 3, 0, 0, //
        4, 0, -0x8000, 3, 0, 128, //
        0, 3, 0x4000, 0, 0, 0, //
        3, 5, 0, 1, 0, 0,
    ]);
    let ssectors = i16s(&[3, 0, 3, 3]);
    let nodes = i16s(&[128, 0, 0, 256, 256, 0, 128, 256, 256, 0, 0, 128, -0x8000, -0x7fff]);
    let blockmap = i16s(&[0, 0, 2, 2]);
    wad(&[
        ("PNAMES", 0u32.to_le_bytes().to_vec()),
        ("TEXTURE1", texture_lump(&[("AASHITTY", 64, 64, false), ("SKY1", 256, 128, false), ("STARTAN1", 128, 128, false)])),
        ("F_START", vec![]),
        ("FLAT1", vec![0; 4096]),
        ("F_SKY1", vec![0; 4096]),
        ("F_END", vec![]),
        ("MAP01", vec![]),
        ("THINGS", vec![]),
        ("LINEDEFS", linedefs),
        ("SIDEDEFS", sidedefs),
        ("VERTEXES", vertexes),
        ("SEGS", segs),
        ("SSECTORS", ssectors),
        ("NODES", nodes),
        ("SECTORS", sectors),
        ("REJECT", vec![]),
        ("BLOCKMAP", blockmap),
    ])
}

fn render_split_room(angle: u32) -> doom_renderer::rendering::bsp::Frame {
    let mut lumps = LumpStore::new();
    assert_eq!(lumps.add_file(split_room_wad()), Ok(()));
    let textures = TextureData::init(&lumps).ok().expect("textures");
    let flats = FlatData::init(&lumps).expect("flats");
    let level = match Level::load(&lumps, &textures, &flats, 0, 1, 1) {
        Ok(l) => l,
        Err(e) => panic!("level: {:?}", e),
    };
    assert_eq!(level.nodes().len(), 1);
    assert_eq!(level.sub_sectors()[1].first_seg_index, 3);
    let view = ViewWindow::new();
    let renderer = BspRenderer::new(&view);
    let mut player = Player::new();
    player.set_position(RealNumber::new(64), RealNumber::new(128), RealNumber::new(0));
    player.set_viewz(RealNumber::new(41));
    player.set_angle(Angle::new(angle));
    renderer.render_player_view(&player, &level, &view, &textures)
}

#[test]
fn bsp_walk_visits_the_near_side_first() {
    // Facing north: the west half (the viewer's side) first, then the east half, whose
    // northern wall shows on the right.
    let frame = render_split_room(0x4000_0000);
    assert_eq!(frame.visited, vec![1, 0]);
    let open: Vec<usize> = (0..320).filter(|&x| !(frame.planes.ceiling_clip[x] == 200 && frame.planes.floor_clip[x] == -1)).collect();
    assert!(open.is_empty(), "open {:?} segs {:?}", open, frame.draw_segs.segs.iter().map(|d| (d.seg_index, d.x1, d.x2)).collect::<Vec<_>>());
}

#[test]
fn bsp_walk_skips_a_hidden_far_side() {
    // Facing west: the west wall closes every column before the east half is reached.
    let frame = render_split_room(0x8000_0000);
    assert_eq!(frame.visited, vec![1]);
}
