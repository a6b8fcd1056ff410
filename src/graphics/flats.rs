use vstd::prelude::*;
use vstd::string::StringSliceAdditionalSpecFns;
use crate::wad::LumpStore;

verus! {

/// A flat (floor or ceiling picture), numbered from the first lump after `F_START`.
#[derive(Copy, Clone, Debug, PartialEq, Eq, Structural)]
pub struct FlatNumber(pub usize);

/// The range of flat lumps and the flat translation table.
pub struct FlatData {
    pub first_flat: usize,
    pub last_flat: usize,
    pub num_flats: usize,
    pub flat_translation: Vec<i32>,
}

impl FlatData {
    /// The flats lie strictly between the `F_START` and `F_END` markers.
    pub open spec fn wf(&self) -> bool {
        &&& self.first_flat <= self.last_flat + 1
        &&& self.num_flats == self.last_flat + 1 - self.first_flat
        &&& self.flat_translation@.len() == self.num_flats
        &&& forall|i: int| 0 <= i < self.num_flats ==> #[trigger] self.flat_translation@[i] == i
    }

    /// Finds the `F_START` and `F_END` markers; `None` when either is missing or they
    /// are out of order.
    pub fn init(lumps: &LumpStore) -> (r: Option<Self>)
        requires
            lumps.lump_count() < i32::MAX,
        ensures
            r matches Some(f) ==> f.wf(),
            r matches Some(f) ==> lumps.finds(seq![70u8, 95u8, 83u8, 84u8, 65u8, 82u8, 84u8], f.first_flat - 1)
                && lumps.finds(seq![70u8, 95u8, 69u8, 78u8, 68u8], f.last_flat + 1),
            r is Some <==> flats_present(lumps),
    {
        let start_name: Vec<u8> = vec![70u8, 95u8, 83u8, 84u8, 65u8, 82u8, 84u8];
        let end_name: Vec<u8> = vec![70u8, 95u8, 69u8, 78u8, 68u8];
        assert(start_name@ == flat_start_name());
        assert(end_name@ == flat_end_name());
        let start = match lumps.find_lump(start_name.as_slice()) {
            Some(n) => n.index(),
            None => return None,
        };
        let end = match lumps.find_lump(end_name.as_slice()) {
            Some(n) => n.index(),
            None => return None,
        };
        proof {
            lemma_finds_unique(lumps, flat_start_name(), start as int);
            lemma_finds_unique(lumps, flat_end_name(), end as int);
        }
        if end <= start {
            return None;
        }
        let first_flat = start + 1;
        let last_flat = end - 1;
        let num_flats = end - start - 1;
        let mut flat_translation: Vec<i32> = Vec::new();
        let mut i: usize = 0;
        while i < num_flats
            invariant
                i <= num_flats,
                num_flats < i32::MAX,
                flat_translation@.len() == i,
                forall|k: int| 0 <= k < i ==> #[trigger] flat_translation@[k] == k,
            decreases num_flats - i,
        {
            flat_translation.push(i as i32);
            i = i + 1;
        }
        Some(FlatData { first_flat, last_flat, num_flats, flat_translation })
    }

    /// The flat of a lump name: the distance of the last lump of that name from the first
    /// flat lump; `None` when no lump has the name or it lies before the flats.
    pub fn get_flat_number(&self, name: &str, lumps: &LumpStore) -> (r: Option<FlatNumber>)
        ensures
            r matches Some(f) ==> exists|i: int|
                lumps.finds(name.spec_bytes(), i) && f.0 == i - self.first_flat && self.first_flat
                    <= i,
            r is None ==> forall|i: int|
                lumps.finds(name.spec_bytes(), i) ==> i < self.first_flat,
    {
        self.flat_number_of(name.as_bytes(), lumps)
    }

    /// The flat of a lump name given as bytes.
    pub fn flat_number_of(&self, name: &[u8], lumps: &LumpStore) -> (r: Option<FlatNumber>)
        ensures
            r matches Some(f) ==> exists|i: int|
                lumps.finds(name@, i) && f.0 == i - self.first_flat && self.first_flat <= i,
            r is None ==> forall|i: int|
                lumps.finds(name@, i) ==> i < self.first_flat,
    {
        match lumps.find_lump(name) {
            Some(n) => {
                let i = n.index();
                if self.first_flat <= i {
                    Some(FlatNumber(i - self.first_flat))
                } else {
                    proof {
                        lemma_finds_unique(lumps, name@, i as int);
                    }
                    None
                }
            },
            None => None,
        }
    }
}

/// The `F_START` and `F_END` markers are present, in order.
pub open spec fn flats_present(lumps: &LumpStore) -> bool {
    exists|s: int, e: int| lumps.finds(flat_start_name(), s) && lumps.finds(flat_end_name(), e) && s < e
}

/// `F_START`
pub open spec fn flat_start_name() -> Seq<u8> {
    seq![70u8, 95u8, 83u8, 84u8, 65u8, 82u8, 84u8]
}

/// `F_END`
pub open spec fn flat_end_name() -> Seq<u8> {
    seq![70u8, 95u8, 69u8, 78u8, 68u8]
}

/// A sector may name this flat: the last lump of that name lies at or after the first
/// flat.
pub open spec fn flat_known(flats: &FlatData, lumps: &LumpStore, name: Seq<u8>) -> bool {
    exists|i: int| lumps.finds(name, i) && flats.first_flat <= i
}

/// Only one lump is the last of a name.
pub proof fn lemma_finds_unique(lumps: &LumpStore, name: Seq<u8>, i: int)
    requires
        lumps.finds(name, i),
    ensures
        forall|j: int| lumps.finds(name, j) ==> j == i,
{
}

} // verus!
