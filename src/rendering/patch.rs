use vstd::prelude::*;
use crate::bytes::{le_i16, le_i32, read_i16, read_i32};

verus! {

/// Size of a patch header: width, height, left offset, top offset.
pub const PATCH_HEADER_SIZE: usize = 8;

/// A picture in column-major posts: a header, a column offset table, then the posts.
pub struct Patch {
    pub data: Vec<u8>,
}

impl Patch {
    pub open spec fn wf(&self) -> bool {
        self.data@.len() >= PATCH_HEADER_SIZE
    }

    pub fn new(data: Vec<u8>) -> (r: Self)
        ensures
            r.data@ == data@,
    {
        Patch { data }
    }

    pub fn width(&self) -> (r: i32)
        requires
            self.wf(),
        ensures
            r == le_i16(self.data@, 0),
    {
        read_i16(self.data.as_slice(), 0) as i32
    }

    pub fn height(&self) -> (r: i32)
        requires
            self.wf(),
        ensures
            r == le_i16(self.data@, 2),
    {
        read_i16(self.data.as_slice(), 2) as i32
    }

    pub fn left_offset(&self) -> (r: i32)
        requires
            self.wf(),
        ensures
            r == le_i16(self.data@, 4),
    {
        read_i16(self.data.as_slice(), 4) as i32
    }

    pub fn top_offset(&self) -> (r: i32)
        requires
            self.wf(),
        ensures
            r == le_i16(self.data@, 6),
    {
        read_i16(self.data.as_slice(), 6) as i32
    }

    /// Column `index`: where its posts start, from the column offset table; `None` when
    /// the table entry lies outside the patch or is negative.
    pub fn get_column(&self, index: usize) -> (r: Option<PatchColumn>)
        ensures
            r matches Some(c) ==> 8 + 4 * index + 4 <= self.data@.len() && c.column_offset
                == le_i32(self.data@, 8 + 4 * index),
            r is None ==> 8 + 4 * index + 4 > self.data@.len() || le_i32(self.data@, 8 + 4 * index) < 0,
    {
        let len = self.data.len();
        if len < 12 || index > (len - 12) / 4 {
            return None;
        }
        let offset = read_i32(self.data.as_slice(), 8 + 4 * index);
        if offset < 0 {
            return None;
        }
        Some(PatchColumn { column_offset: offset as usize })
    }
}

/// Where a column's posts start in its patch.
#[derive(Copy, Clone, Debug)]
pub struct PatchColumn {
    pub column_offset: usize,
}

/// A run of pixels of a column: the row it starts at and its palette indices.
#[derive(Clone, Debug)]
pub struct Post {
    pub top_delta: i32,
    pub length: i32,
    pub data: Vec<u8>,
}

impl Post {
    pub fn top_delta(&self) -> (r: i32)
        ensures
            r == self.top_delta,
    {
        self.top_delta
    }

    pub fn length(&self) -> (r: i32)
        ensures
            r == self.length,
    {
        self.length
    }

    pub fn data(&self) -> (r: &Vec<u8>)
        ensures
            r == &self.data,
    {
        &self.data
    }
}

impl PatchColumn {
    pub fn new(column_offset: usize) -> (r: Self)
        ensures
            r.column_offset == column_offset,
    {
        PatchColumn { column_offset }
    }

    /// The posts of the column, in order, up to the `0xff` end mark. A post that runs
    /// past the end of the patch ends the list.
    pub fn posts(&self, patch: &Patch) -> (r: Vec<Post>)
        ensures
            forall|k: int| 0 <= k < r@.len() ==> (#[trigger] r@[k]).length == r@[k].data@.len() && 0 <= r@[k].top_delta < 255 && r@[k].data@.len() < 256,
    {
        let data = patch.data.as_slice();
        let len = data.len();
        let mut posts: Vec<Post> = Vec::new();
        let mut at = self.column_offset;
        while at < len && data[at] != 0xff
            invariant
                len == data@.len(),
                forall|k: int| 0 <= k < posts@.len() ==> (#[trigger] posts@[k]).length == posts@[k].data@.len() && 0 <= posts@[k].top_delta < 255 && posts@[k].data@.len() < 256,
            decreases len - at,
        {
            if at + 1 >= len {
                break;
            }
            let length = data[at + 1] as usize;
            if length + 4 > len - at {
                break;
            }
            let pixels = vstd::slice::slice_to_vec(vstd::slice::slice_subrange(data, at + 3, at + 3 + length));
            posts.push(Post { top_delta: data[at] as i32, length: length as i32, data: pixels });
            at = at + length + 4;
        }
        posts
    }
}

} // verus!
