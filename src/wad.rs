use vstd::prelude::*;
use vstd::string::StringSliceAdditionalSpecFns;
use crate::bytes::{le_i32, padded_name, read_i32, read_padded_name, upper, upper_case};

verus! {

/// Size of an archive header: magic, lump count, directory offset.
pub const HEADER_SIZE: usize = 12;

/// Size of one directory entry: offset, size, 8-byte name.
pub const DIRECTORY_ENTRY_SIZE: usize = 16;

/// Why an archive could not be added.
#[derive(Copy, Clone, Debug, PartialEq, Eq, Structural)]
pub enum WadError {
    /// The file is shorter than its header.
    Truncated,
    /// The magic is neither `IWAD` nor `PWAD`.
    BadMagic,
    /// The lump count or the directory offset is negative, or the directory runs past
    /// the end of the file.
    BadDirectory,
    /// A directory entry names bytes outside the file.
    BadLump,
}

/// The index of a lump in the store.
#[derive(Copy, Clone, Debug, PartialEq, Eq, Structural)]
pub struct LumpNumber(pub usize);

impl LumpNumber {
    /// The lump `value` places after this one.
    pub fn offset(self, value: usize) -> (r: Self)
        requires
            self.0 + value <= usize::MAX,
        ensures
            r.0 == self.0 + value,
    {
        LumpNumber(self.0 + value)
    }

    pub fn index(self) -> (r: usize)
        ensures
            r == self.0,
    {
        self.0
    }

    /// Number of lumps from `rhs` up to this one.
    pub fn distance_from(self, rhs: Self) -> (r: usize)
        requires
            rhs.0 <= self.0,
        ensures
            r == self.0 - rhs.0,
    {
        self.0 - rhs.0
    }
}

/// A named byte range of the store's data.
#[derive(Clone, Debug)]
pub struct LumpInfo {
    pub name: Vec<u8>,
    pub offset: usize,
    pub size: usize,
}

/// How a lump is asked for.
pub enum By<'a> {
    Name(&'a str),
    Number(LumpNumber),
}

/// The header of an archive file: magic, lump count and directory offset.
#[derive(Copy, Clone, Debug)]
pub struct WadHeader {
    pub identification: [u8; 4],
    pub num_lumps: i32,
    pub directory_offset: i32,
}

impl WadHeader {
    /// Reads the header at the start of a file; `None` when the file is shorter.
    pub fn parse(file: &[u8]) -> (r: Option<WadHeader>)
        ensures
            r is Some <==> file@.len() >= HEADER_SIZE,
            r matches Some(h) ==> {
                &&& forall|i: int| 0 <= i < 4 ==> h.identification[i] == file@[i]
                &&& h.num_lumps == le_i32(file@, 4)
                &&& h.directory_offset == le_i32(file@, 8)
            },
    {
        if file.len() < HEADER_SIZE {
            return None;
        }
        Some(WadHeader {
            identification: [file[0], file[1], file[2], file[3]],
            num_lumps: read_i32(file, 4),
            directory_offset: read_i32(file, 8),
        })
    }

    /// The magic is `IWAD` or `PWAD`.
    pub fn has_valid_magic(&self) -> (r: bool)
        ensures
            r == ((self.identification[0] == 73u8 || self.identification[0] == 80u8)
                && self.identification[1] == 87u8 && self.identification[2] == 65u8
                && self.identification[3] == 68u8),
    {
        let id = self.identification;
        (id[0] == 73u8 || id[0] == 80u8) && id[1] == 87u8 && id[2] == 65u8 && id[3] == 68u8
    }
}

/// The magic is `IWAD` or `PWAD`.
pub open spec fn valid_magic(b: Seq<u8>) -> bool {
    (b[0] == 73u8 || b[0] == 80u8) && b[1] == 87u8 && b[2] == 65u8 && b[3] == 68u8
}

/// Directory entry `k` of an archive file, with offsets moved by `base`.
pub open spec fn directory_entry_ok(b: Seq<u8>, dir: int, k: int) -> bool {
    let at = dir + 16 * k;
    le_i32(b, at) >= 0 && le_i32(b, at + 4) >= 0 && le_i32(b, at) + le_i32(b, at + 4) <= b.len()
}

/// An archive file is accepted: its header, directory and every entry are in range.
pub open spec fn archive_ok(b: Seq<u8>) -> bool {
    b.len() >= 12 && valid_magic(b) && le_i32(b, 4) >= 0 && le_i32(b, 8) >= 0 && le_i32(b, 8)
        + 16 * le_i32(b, 4) <= b.len() && forall|k: int|
        0 <= k < le_i32(b, 4) ==> #[trigger] directory_entry_ok(b, le_i32(b, 8), k)
}

/// The error reported for a file that is not accepted.
pub open spec fn archive_error(b: Seq<u8>) -> WadError {
    if b.len() < 12 {
        WadError::Truncated
    } else if !valid_magic(b) {
        WadError::BadMagic
    } else if !(le_i32(b, 4) >= 0 && le_i32(b, 8) >= 0 && le_i32(b, 8) + 16 * le_i32(b, 4)
        <= b.len()) {
        WadError::BadDirectory
    } else {
        WadError::BadLump
    }
}

/// Name, absolute offset and size of directory entry `k`, for a file placed at `base`.
pub open spec fn directory_entry(b: Seq<u8>, base: int, k: int) -> (Seq<u8>, int, int) {
    let at = le_i32(b, 8) + 16 * k;
    (padded_name(b.subrange(at + 8, at + 16)), base + le_i32(b, at), le_i32(b, at + 4))
}

/// Lumps with their data: the names, offsets and sizes of the directory in order, and
/// the concatenated bytes of every file added.
pub struct LumpStore {
    lumps: Vec<LumpInfo>,
    data: Vec<u8>,
}

impl LumpStore {
    /// Every lump lies inside the data.
    pub closed spec fn wf(&self) -> bool {
        forall|i: int|
            0 <= i < self.lumps@.len() ==> (#[trigger] self.lumps@[i]).offset + self.lumps@[i].size
                <= self.data@.len()
    }

    pub closed spec fn lump_count(&self) -> nat {
        self.lumps@.len()
    }

    pub closed spec fn lump_name(&self, i: int) -> Seq<u8> {
        self.lumps@[i].name@
    }

    /// The bytes of lump `i`.
    pub closed spec fn lump_data(&self, i: int) -> Seq<u8> {
        self.data@.subrange(
            self.lumps@[i].offset as int,
            self.lumps@[i].offset + self.lumps@[i].size,
        )
    }

    pub closed spec fn data_len(&self) -> nat {
        self.data@.len()
    }

    /// The lump that a name finds: the last one of that name, in upper case.
    pub open spec fn finds(&self, name: Seq<u8>, i: int) -> bool {
        0 <= i < self.lump_count() && self.lump_name(i) == upper(name) && forall|j: int|
            i < j < self.lump_count() ==> #[trigger] self.lump_name(j) != upper(name)
    }

    pub open spec fn has_name(&self, name: Seq<u8>) -> bool {
        exists|i: int| 0 <= i < self.lump_count() && #[trigger] self.lump_name(i) == upper(name)
    }

    pub fn new() -> (r: Self)
        ensures
            r.wf(),
            r.lump_count() == 0,
            r.data_len() == 0,
    {
        LumpStore { lumps: Vec::new(), data: Vec::new() }
    }

    pub fn len(&self) -> (r: usize)
        ensures
            r == self.lump_count(),
    {
        self.lumps.len()
    }

    /// Adds the lumps of an archive file, given as its bytes. Later names hide earlier
    /// ones of the same name.
    pub fn add_file(&mut self, file: Vec<u8>) -> (r: Result<(), WadError>)
        requires
            old(self).wf(),
            old(self).data_len() + file@.len() <= usize::MAX,
        ensures
            final(self).wf(),
            r is Ok <==> archive_ok(file@),
            r is Err ==> r == Err::<(), WadError>(archive_error(file@)) && *final(self) == *old(
                self,
            ),
            r is Ok ==> {
                &&& final(self).lump_count() == old(self).lump_count() + le_i32(file@, 4)
                &&& final(self).data_len() == old(self).data_len() + file@.len()
                &&& forall|i: int|
                    0 <= i < old(self).lump_count() ==> final(self).lump_name(i) == old(
                        self,
                    ).lump_name(i) && final(self).lump_data(i) == old(self).lump_data(i)
                &&& forall|k: int|
                    0 <= k < le_i32(file@, 4) ==> final(self).lump_name(old(self).lump_count() + k)
                        == (#[trigger] directory_entry(file@, old(self).data_len() as int, k)).0
                        && final(self).lump_data(old(self).lump_count() + k) == file@.subrange(
                        directory_entry(file@, old(self).data_len() as int, k).1 - old(
                            self,
                        ).data_len(),
                        directory_entry(file@, old(self).data_len() as int, k).1 - old(
                            self,
                        ).data_len() + directory_entry(file@, old(self).data_len() as int, k).2,
                    )
            },
    {
        let len = file.len();
        let f = file.as_slice();
        let header = match WadHeader::parse(f) {
            Some(h) => h,
            None => return Err(WadError::Truncated),
        };
        if !header.has_valid_magic() {
            return Err(WadError::BadMagic);
        }
        let num_lumps = header.num_lumps;
        let dir = header.directory_offset;
        if num_lumps < 0 || dir < 0 || (dir as usize) > len || (num_lumps as usize) > (len
            - dir as usize) / 16 {
            return Err(WadError::BadDirectory);
        }
        let n = num_lumps as usize;
        let d = dir as usize;
        let mut k: usize = 0;
        while k < n
            invariant
                k <= n,
                n == le_i32(f@, 4),
                d == le_i32(f@, 8),
                d + 16 * n <= len,
                len == f@.len(),
                f@ == file@,
                len >= 12,
                valid_magic(f@),
                old(self).wf(),
                *self == *old(self),
                forall|j: int| 0 <= j < k ==> #[trigger] directory_entry_ok(f@, d as int, j),
            decreases n - k,
        {
            let at = d + 16 * k;
            let offset = read_i32(f, at);
            let size = read_i32(f, at + 4);
            if offset < 0 || size < 0 || (offset as usize) > len || (size as usize) > len
                - offset as usize {
                assert(!directory_entry_ok(f@, d as int, k as int));
                return Err(WadError::BadLump);
            }
            k = k + 1;
        }
        let base = self.data.len();
        let ghost old_self = *self;
        k = 0;
        while k < n
            invariant
                k <= n,
                n == le_i32(f@, 4),
                d == le_i32(f@, 8),
                d + 16 * n <= len,
                len == f@.len(),
                base == old_self.data@.len(),
                self.data == old_self.data,
                base + len <= usize::MAX,
                forall|j: int| 0 <= j < n ==> #[trigger] directory_entry_ok(f@, d as int, j),
                self.lumps@.len() == old_self.lumps@.len() + k,
                forall|i: int|
                    0 <= i < old_self.lumps@.len() ==> #[trigger] self.lumps@[i]
                        == old_self.lumps@[i],
                forall|i: int|
                    0 <= i < self.lumps@.len() ==> #[trigger] self.lumps@[i].offset
                        + self.lumps@[i].size <= base + len,
                forall|j: int|
                    0 <= j < k ==> self.lumps@[old_self.lumps@.len() + j].name@
                        == (#[trigger] directory_entry(f@, base as int, j)).0
                        && self.lumps@[old_self.lumps@.len() + j].offset == directory_entry(
                        f@,
                        base as int,
                        j,
                    ).1 && self.lumps@[old_self.lumps@.len() + j].size == directory_entry(
                        f@,
                        base as int,
                        j,
                    ).2,
            decreases n - k,
        {
            let at = d + 16 * k;
            assert(directory_entry_ok(f@, d as int, k as int));
            let offset = read_i32(f, at) as usize;
            let size = read_i32(f, at + 4) as usize;
            let name = read_padded_name(f, at + 8, 8);
            self.lumps.push(LumpInfo { name, offset: base + offset, size });
            k = k + 1;
        }
        let mut file = file;
        self.data.append(&mut file);
        proof {
            assert forall|i: int| 0 <= i < old_self.lumps@.len() implies self.lump_data(i)
                == old_self.lump_data(i) by {
                assert(self.lumps@[i] == old_self.lumps@[i]);
                assert(old_self.lumps@[i].offset + old_self.lumps@[i].size <= base);
            }
            assert forall|j: int| 0 <= j < n implies self.lump_data(old_self.lumps@.len() + j)
                == f@.subrange(
                directory_entry(f@, base as int, j).1 - base,
                directory_entry(f@, base as int, j).1 - base + directory_entry(f@, base as int, j).2,
            ) by {
                assert(directory_entry_ok(f@, d as int, j));
                assert(directory_entry(f@, base as int, j).1 >= base);
                assert(self.lumps@[old_self.lumps@.len() + j].offset >= base);
            }
        }
        Ok(())
    }

    /// The number of the last lump with this name, ignoring case.
    pub fn get_lump_number(&self, name: &str) -> (r: Option<LumpNumber>)
        ensures
            r is None <==> !self.has_name(name.spec_bytes()),
            r matches Some(n) ==> self.finds(name.spec_bytes(), n.0 as int),
    {
        self.find_lump(name.as_bytes())
    }

    /// The number of the last lump with this name (given as bytes), ignoring case.
    pub fn find_lump(&self, name: &[u8]) -> (r: Option<LumpNumber>)
        ensures
            r is None <==> !self.has_name(name@),
            r matches Some(n) ==> self.finds(name@, n.0 as int),
    {
        let wanted = upper_case(name);
        let mut i = self.lumps.len();
        while i > 0
            invariant
                i <= self.lumps@.len(),
                wanted@ == upper(name@),
                forall|j: int| i <= j < self.lumps@.len() ==> #[trigger] self.lump_name(j) != upper(
                    name@,
                ),
            decreases i,
        {
            i = i - 1;
            if bytes_equal(self.lumps[i].name.as_slice(), wanted.as_slice()) {
                assert(self.lump_name(i as int) == upper(name@));
                return Some(LumpNumber(i));
            }
        }
        None
    }

    /// Whether a lump can be read by this request.
    pub open spec fn can_get(&self, by: By) -> bool {
        match by {
            By::Name(name) => self.has_name(name.spec_bytes()),
            By::Number(n) => n.0 < self.lump_count(),
        }
    }

    /// The bytes of a lump, by name (the last of that name) or by number.
    pub fn get_lump(&self, by: By) -> (r: &[u8])
        requires
            self.wf(),
            self.can_get(by),
        ensures
            match by {
                By::Name(name) => exists|i: int|
                    self.finds(name.spec_bytes(), i) && r@ == self.lump_data(i),
                By::Number(n) => r@ == self.lump_data(n.0 as int),
            },
    {
        let index = match by {
            By::Name(name) => {
                match self.get_lump_number(name) {
                    Some(n) => n.0,
                    None => 0,
                }
            },
            By::Number(n) => n.0,
        };
        let lump = &self.lumps[index];
        let data_len = self.data.len();
        proof {
            assert(self.lumps@[index as int].offset + self.lumps@[index as int].size <= data_len);
        }
        let r = vstd::slice::slice_subrange(self.data.as_slice(), lump.offset, lump.offset + lump.size);
        proof {
            if let By::Name(name) = by {
                assert(self.finds(name.spec_bytes(), index as int) && r@ == self.lump_data(index as int));
            }
        }
        r
    }
}

/// Byte-wise equality of two byte strings.
pub fn bytes_equal(a: &[u8], b: &[u8]) -> (r: bool)
    ensures
        r == (a@ == b@),
{
    if a.len() != b.len() {
        return false;
    }
    let mut i: usize = 0;
    while i < a.len()
        invariant
            i <= a@.len(),
            a@.len() == b@.len(),
            forall|j: int| 0 <= j < i ==> a@[j] == b@[j],
        decreases a@.len() - i,
    {
        if a[i] != b[i] {
            return false;
        }
        i = i + 1;
    }
    assert(a@ =~= b@);
    true
}

} // verus!
