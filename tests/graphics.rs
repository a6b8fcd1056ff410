use doom_renderer::graphics::color_maps::ColorMapData;
use doom_renderer::graphics::flats::{FlatData, FlatNumber};
use doom_renderer::graphics::light_table::LightTable;
use doom_renderer::graphics::sprites::SpriteData;
use doom_renderer::graphics::textures::TextureNumber;
use doom_renderer::graphics::GraphicsData;
use doom_renderer::rendering::flats::init_flats;
use doom_renderer::rendering::patch::Patch;
use doom_renderer::wad::LumpStore;

fn name8(name: &str) -> [u8; 8] {
    let mut padded = [0u8; 8];
    padded[..name.len()].copy_from_slice(name.as_bytes());
    padded
}

fn wad(lumps: &[(&str, Vec<u8>)]) -> Vec<u8> {
    let mut data: Vec<u8> = Vec::new();
    let mut directory: Vec<u8> = Vec::new();
    let mut offset = 12usize;
    for (name, bytes) in lumps {
        directory.extend_from_slice(&(offset as i32).to_le_bytes());
        directory.extend_from_slice(&(bytes.len() as i32).to_le_bytes());
        directory.extend_from_slice(&name8(name));
        data.extend_from_slice(bytes);
        offset += bytes.len();
    }
    let mut file = Vec::new();
    file.extend_from_slice(b"PWAD");
    file.extend_from_slice(&(lumps.len() as i32).to_le_bytes());
    file.extend_from_slice(&(offset as i32).to_le_bytes());
    file.extend_from_slice(&data);
    file.extend_from_slice(&directory);
    file
}

/// A patch 2 wide and 3 high: column 0 has one post of 2 pixels at row 1, column 1 none.
fn patch_bytes() -> Vec<u8> {
    let mut p = Vec::new();
    for v in [2i16, 3, -1, 5] {
        p.extend_from_slice(&v.to_le_bytes());
    }
    p.extend_from_slice(&16i32.to_le_bytes());
    p.extend_from_slice(&22i32.to_le_bytes());
    p.extend_from_slice(&[1, 2, 0, 7, 8, 0]);
    p.push(0xff);
    p
}

fn store() -> LumpStore {
    let mut colormap = Vec::new();
    for level in 0..34u32 {
        for i in 0..256u32 {
            colormap.push(((i + level) % 256) as u8);
        }
    }
    let mut lumps = LumpStore::new();
    let file = wad(&[
        ("COLORMAP", colormap),
        ("PNAMES", 0u32.to_le_bytes().to_vec()),
        ("TEXTURE1", 0u32.to_le_bytes().to_vec()),
        ("S_START", vec![]),
        ("TROOA1", patch_bytes()),
        ("S_END", vec![]),
        ("F_START", vec![]),
        ("FLOOR0_1", vec![0; 4096]),
        ("F_SKY1", vec![0; 4096]),
        ("F_END", vec![]),
    ]);
    assert_eq!(lumps.add_file(file), Ok(()));
    lumps
}

#[test]
fn flats_are_numbered_from_the_start_marker() {
    let lumps = store();
    let flats = FlatData::init(&lumps).expect("flats");
    assert_eq!((flats.first_flat, flats.last_flat, flats.num_flats), (7, 8, 2));
    assert_eq!(flats.get_flat_number("floor0_1", &lumps), Some(FlatNumber(0)));
    assert_eq!(flats.get_flat_number("F_SKY1", &lumps), Some(FlatNumber(1)));
    assert_eq!(flats.get_flat_number("F_END", &lumps), Some(FlatNumber(2)));
    assert_eq!(flats.get_flat_number("TROOA1", &lumps), None);
    assert_eq!(flats.flat_translation, vec![0, 1]);
    assert_eq!(init_flats(&lumps).map(|f| f.num_flats), Some(2));
}

#[test]
fn color_maps_and_light_table() {
    let lumps = store();
    let maps = ColorMapData::init(&lumps).expect("color maps");
    assert_eq!(maps.color_maps().len(), 34 * 256);
    assert_eq!(maps.row(3)[0], 3);
    assert_eq!(maps.row(31)[255], 30);
    let table = LightTable::init(&maps);
    assert_eq!(table.z_light.len(), 2048);
    assert_eq!(table.z_light[0], 0);
    assert_eq!(table.z_light[127], 31);
    assert_eq!(table.z_light[8 * 128 + 127], 28);
    assert_eq!(table.z_light[15 * 128 + 127], 0);
    assert!(table.z_light.iter().all(|&l| l < 32));
}

#[test]
fn sprites_and_patches() {
    let lumps = store();
    let sprites = SpriteData::init(&lumps).expect("sprites");
    assert_eq!(sprites.widths.len(), 1);
    assert_eq!(sprites.widths[0].to_bits(), 2 << 16);
    assert_eq!(sprites.offsets[0].to_bits(), -(1 << 16));
    assert_eq!(sprites.top_offsets[0].to_bits(), 5 << 16);
    let patch = Patch::new(patch_bytes());
    assert_eq!((patch.width(), patch.height(), patch.left_offset(), patch.top_offset()), (2, 3, -1, 5));
    let column = patch.get_column(0).expect("column 0");
    let posts = column.posts(&patch);
    assert_eq!(posts.len(), 1);
    assert_eq!((posts[0].top_delta(), posts[0].length()), (1, 2));
    assert_eq!(posts[0].data(), &vec![7u8, 8]);
    assert!(patch.get_column(1).expect("column 1").posts(&patch).is_empty());
    assert!(patch.get_column(5).is_none());
}

#[test]
fn graphics_data_needs_its_lumps() {
    let lumps = store();
    let graphics = GraphicsData::init(&lumps).ok().expect("graphics");
    assert_eq!(graphics.textures().textures.len(), 0);
    assert_eq!(graphics.flats().num_flats, 2);
    assert_eq!(graphics.textures().get_texture_number(b"-"), Some(TextureNumber(0)));
    let empty = LumpStore::new();
    assert!(GraphicsData::init(&empty).is_err());
}
