use doom_renderer::wad::{By, LumpNumber, LumpStore, WadError};

fn wad(magic: &[u8; 4], lumps: &[(&str, Vec<u8>)]) -> Vec<u8> {
    let mut data: Vec<u8> = Vec::new();
    let mut directory: Vec<u8> = Vec::new();
    let mut offset = 12usize;
    for (name, bytes) in lumps {
        directory.extend_from_slice(&(offset as i32).to_le_bytes());
        directory.extend_from_slice(&(bytes.len() as i32).to_le_bytes());
        let mut padded = [0u8; 8];
        padded[..name.len()].copy_from_slice(name.as_bytes());
        directory.extend_from_slice(&padded);
        data.extend_from_slice(bytes);
        offset += bytes.len();
    }
    let mut file = Vec::new();
    file.extend_from_slice(magic);
    file.extend_from_slice(&(lumps.len() as i32).to_le_bytes());
    file.extend_from_slice(&(offset as i32).to_le_bytes());
    file.extend_from_slice(&data);
    file.extend_from_slice(&directory);
    file
}

#[test]
fn archive_lumps_by_name_and_number() {
    let mut store = LumpStore::new();
    let file = wad(b"IWAD", &[("PLAYPAL", vec![1, 2, 3]), ("colormap", vec![9; 5])]);
    assert_eq!(store.add_file(file), Ok(()));
    assert_eq!(store.len(), 2);
    assert_eq!(store.get_lump_number("playpal"), Some(LumpNumber(0)));
    assert_eq!(store.get_lump_number("COLORMAP"), Some(LumpNumber(1)));
    assert_eq!(store.get_lump_number("ENDOOM"), None);
    assert_eq!(store.get_lump(By::Name("PlayPal")), &[1u8, 2, 3][..]);
    assert_eq!(store.get_lump(By::Number(LumpNumber(1))), &[9u8; 5][..]);
}

#[test]
fn later_files_override_earlier_names() {
    let mut store = LumpStore::new();
    assert_eq!(store.add_file(wad(b"IWAD", &[("MAP01", vec![1]), ("THINGS", vec![2, 2])])), Ok(()));
    assert_eq!(store.add_file(wad(b"PWAD", &[("THINGS", vec![3, 3, 3])])), Ok(()));
    assert_eq!(store.get_lump_number("THINGS"), Some(LumpNumber(2)));
    assert_eq!(store.get_lump(By::Name("things")), &[3u8, 3, 3][..]);
    assert_eq!(store.get_lump(By::Number(LumpNumber(1))), &[2u8, 2][..]);
}

#[test]
fn archive_errors() {
    let mut store = LumpStore::new();
    assert_eq!(store.add_file(vec![73, 87, 65]), Err(WadError::Truncated));
    assert_eq!(store.add_file(wad(b"JWAD", &[("A", vec![1])])), Err(WadError::BadMagic));
    let mut bad_dir = wad(b"IWAD", &[("A", vec![1])]);
    bad_dir[8] = 200;
    assert_eq!(store.add_file(bad_dir), Err(WadError::BadDirectory));
    let mut bad_lump = wad(b"IWAD", &[("A", vec![1])]);
    let at = bad_lump.len() - 12;
    bad_lump[at] = 100;
    assert_eq!(store.add_file(bad_lump), Err(WadError::BadLump));
    assert_eq!(store.len(), 0);
}

#[test]
fn lump_names_stop_at_the_first_zero() {
    let mut file = wad(b"IWAD", &[("E1M1", vec![7])]);
    let at = file.len() - 8 + 5;
    file[at] = b'X';
    let mut store = LumpStore::new();
    assert_eq!(store.add_file(file), Ok(()));
    assert_eq!(store.get_lump_number("e1m1"), Some(LumpNumber(0)));
}
