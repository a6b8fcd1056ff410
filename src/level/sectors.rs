use vstd::prelude::*;
use crate::bytes::{le_i16, padded_name, read_i16, read_padded_name};
use crate::graphics::flats::{flat_known, FlatData, FlatNumber};
use crate::level::bounding_box::BoundingBox;
use crate::number::RealNumber;
use crate::types::Vector3;
use crate::wad::LumpStore;

verus! {

/// Size of a sector record.
pub const SECTOR_SIZE: usize = 26;

/// A sector: floor and ceiling, their flats, light, and what grouping lines adds.
#[derive(Copy, Clone, Debug)]
pub struct Sector {
    pub floor_height: RealNumber,
    pub ceiling_height: RealNumber,
    pub floor_pic: FlatNumber,
    pub ceiling_pic: FlatNumber,
    pub light_level: i16,
    pub special: i16,
    pub tag: i16,
    pub line_count: u32,
    pub soundorg: Vector3,
    pub blockbox: BoundingBox,
}

/// The floor and ceiling flat names of sector record `k` name flats.
pub open spec fn sector_record_ok(flats: &FlatData, lumps: &LumpStore, data: Seq<u8>, k: int) -> bool {
    &&& flat_known(flats, lumps, padded_name(data.subrange(26 * k + 4, 26 * k + 12)))
    &&& flat_known(flats, lumps, padded_name(data.subrange(26 * k + 12, 26 * k + 20)))
}

/// Reads every whole sector record; `None` when a record names a flat that no lump at or
/// after the first flat bears.
pub fn load(data: &[u8], flats: &FlatData, lumps: &LumpStore) -> (r: Option<Vec<Sector>>)
    ensures
        r is Some <==> forall|k: int| 0 <= k < data@.len() / 26 ==> #[trigger] sector_record_ok(flats, lumps, data@, k),
        r matches Some(sectors) ==> {
            &&& sectors@.len() == data@.len() / 26
            &&& forall|i: int|
                0 <= i < sectors@.len() ==> {
                    &&& (#[trigger] sectors@[i]).floor_height@ == le_i16(data@, 26 * i) * 65536
                    &&& sectors@[i].ceiling_height@ == le_i16(data@, 26 * i + 2) * 65536
                    &&& sectors@[i].light_level == le_i16(data@, 26 * i + 20)
                    &&& sectors@[i].special == le_i16(data@, 26 * i + 22)
                    &&& sectors@[i].tag == le_i16(data@, 26 * i + 24)
                    &&& sectors@[i].line_count == 0
                }
        },
{
    let len = data.len();
    let n = len / SECTOR_SIZE;
    let mut sectors: Vec<Sector> = Vec::new();
    let mut i: usize = 0;
    while i < n
        invariant
            i <= n,
            len == data@.len(),
            n == data@.len() / 26,
            sectors@.len() == i,
            forall|k: int| 0 <= k < i ==> #[trigger] sector_record_ok(flats, lumps, data@, k),
            forall|k: int|
                0 <= k < i ==> {
                    &&& (#[trigger] sectors@[k]).floor_height@ == le_i16(data@, 26 * k) * 65536
                    &&& sectors@[k].ceiling_height@ == le_i16(data@, 26 * k + 2) * 65536
                    &&& sectors@[k].light_level == le_i16(data@, 26 * k + 20)
                    &&& sectors@[k].special == le_i16(data@, 26 * k + 22)
                    &&& sectors@[k].tag == le_i16(data@, 26 * k + 24)
                    &&& sectors@[k].line_count == 0
                },
        decreases n - i,
    {
        let at = SECTOR_SIZE * i;
        let floor_name = read_padded_name(data, at + 4, 8);
        let ceiling_name = read_padded_name(data, at + 12, 8);
        let floor_pic = match flats.flat_number_of(floor_name.as_slice(), lumps) {
            Some(f) => f,
            None => {
                assert(!sector_record_ok(flats, lumps, data@, i as int));
                return None;
            },
        };
        let ceiling_pic = match flats.flat_number_of(ceiling_name.as_slice(), lumps) {
            Some(f) => f,
            None => {
                assert(!sector_record_ok(flats, lumps, data@, i as int));
                return None;
            },
        };
        let zero = RealNumber::new_from_bits(0);
        assert(sector_record_ok(flats, lumps, data@, i as int));
        sectors.push(
            Sector {
                floor_height: RealNumber::new(read_i16(data, at) as i32),
                ceiling_height: RealNumber::new(read_i16(data, at + 2) as i32),
                floor_pic,
                ceiling_pic,
                light_level: read_i16(data, at + 20),
                special: read_i16(data, at + 22),
                tag: read_i16(data, at + 24),
                line_count: 0,
                soundorg: Vector3::new(zero, zero, zero),
                blockbox: BoundingBox::new_empty(),
            },
        );
        i = i + 1;
    }
    Some(sectors)
}

} // verus!
