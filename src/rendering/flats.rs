use vstd::prelude::*;
use crate::graphics::flats::FlatData;
use crate::wad::LumpStore;

verus! {

/// The flat range of the archive (see `FlatData::init`).
pub fn init_flats(lumps: &LumpStore) -> (r: Option<FlatData>)
    requires
        lumps.lump_count() < i32::MAX,
    ensures
        r matches Some(f) ==> f.wf(),
        r is Some <==> crate::graphics::flats::flats_present(lumps),
{
    FlatData::init(lumps)
}

} // verus!
