use vstd::prelude::*;

verus! {

/// The unsigned 16-bit little-endian integer at `i`.
pub open spec fn le_u16(b: Seq<u8>, i: int) -> int {
    b[i] as int + 256 * (b[i + 1] as int)
}

/// The signed 16-bit little-endian integer at `i`.
pub open spec fn le_i16(b: Seq<u8>, i: int) -> int {
    let u = le_u16(b, i);
    if u >= 32768 { u - 65536 } else { u }
}

/// The unsigned 32-bit little-endian integer at `i`.
pub open spec fn le_u32(b: Seq<u8>, i: int) -> int {
    b[i] as int + 256 * (b[i + 1] as int) + 65536 * (b[i + 2] as int) + 16777216 * (b[i + 3] as int)
}

/// The signed 32-bit little-endian integer at `i`.
pub open spec fn le_i32(b: Seq<u8>, i: int) -> int {
    let u = le_u32(b, i);
    if u >= 2147483648 { u - 4294967296 } else { u }
}

pub fn read_u16(b: &[u8], i: usize) -> (r: u16)
    requires
        i + 2 <= b@.len(),
    ensures
        r == le_u16(b@, i as int),
{
    b[i] as u16 + 256 * (b[i + 1] as u16)
}

pub fn read_i16(b: &[u8], i: usize) -> (r: i16)
    requires
        i + 2 <= b@.len(),
    ensures
        r == le_i16(b@, i as int),
{
    let u = b[i] as i32 + 256 * (b[i + 1] as i32);
    if u >= 32768 {
        (u - 65536) as i16
    } else {
        u as i16
    }
}

pub fn read_u32(b: &[u8], i: usize) -> (r: u32)
    requires
        i + 4 <= b@.len(),
    ensures
        r == le_u32(b@, i as int),
{
    b[i] as u32 + 256 * (b[i + 1] as u32) + 65536 * (b[i + 2] as u32) + 16777216 * (b[i + 3] as u32)
}

pub fn read_i32(b: &[u8], i: usize) -> (r: i32)
    requires
        i + 4 <= b@.len(),
    ensures
        r == le_i32(b@, i as int),
{
    let u = read_u32(b, i) as i64;
    if u >= 2147483648 {
        (u - 4294967296) as i32
    } else {
        u as i32
    }
}

/// ASCII upper case of one byte.
pub open spec fn upper_byte(c: u8) -> u8 {
    if 97 <= c <= 122 { (c - 32) as u8 } else { c }
}

/// ASCII upper case of a byte string.
pub open spec fn upper(s: Seq<u8>) -> Seq<u8> {
    Seq::new(s.len(), |i: int| upper_byte(s[i]))
}

/// The bytes of a zero-padded name: those before the first zero byte.
pub open spec fn name_prefix_len(s: Seq<u8>) -> int
    decreases s.len(),
{
    if s.len() == 0 {
        0
    } else if s[0] == 0 {
        0
    } else {
        1 + name_prefix_len(s.drop_first())
    }
}

/// The bytes of a zero-padded name before its first zero.
pub open spec fn name_bytes(s: Seq<u8>) -> Seq<u8> {
    s.take(name_prefix_len(s))
}

/// A name as stored: the bytes before the first zero, in upper case.
pub open spec fn padded_name(s: Seq<u8>) -> Seq<u8> {
    upper(name_bytes(s))
}

pub fn upper_case(s: &[u8]) -> (r: Vec<u8>)
    ensures
        r@ == upper(s@),
{
    let mut r: Vec<u8> = Vec::new();
    let mut i: usize = 0;
    while i < s.len()
        invariant
            i <= s@.len(),
            r@ == upper(s@.take(i as int)),
        decreases s@.len() - i,
    {
        let c = s[i];
        let u = if 97 <= c && c <= 122 { c - 32 } else { c };
        r.push(u);
        i = i + 1;
        assert(r@ =~= upper(s@.take(i as int)));
    }
    assert(s@.take(i as int) =~= s@);
    r
}

proof fn lemma_name_prefix_stop(s: Seq<u8>, n: int)
    requires
        0 <= n <= s.len(),
        forall|j: int| 0 <= j < n ==> s[j] != 0,
        n == s.len() || s[n] == 0,
    ensures
        name_prefix_len(s) == n,
    decreases s.len(),
{
    if s.len() > 0 && s[0] != 0 {
        lemma_name_prefix_stop(s.drop_first(), n - 1);
    }
}

/// The name held in `len` zero-padded bytes at `at`, as it is written.
pub fn read_name(b: &[u8], at: usize, len: usize) -> (r: Vec<u8>)
    requires
        at + len <= b@.len(),
    ensures
        r@ == name_bytes(b@.subrange(at as int, at + len)),
{
    let ghost s = b@.subrange(at as int, at + len);
    let blen = b.len();
    let mut n: usize = 0;
    while n < len && b[at + n] != 0
        invariant
            n <= len,
            at + len <= b@.len(),
            blen == b@.len(),
            s == b@.subrange(at as int, at + len),
            forall|j: int| 0 <= j < n ==> s[j] != 0,
        decreases len - n,
    {
        n = n + 1;
    }
    proof {
        lemma_name_prefix_stop(s, n as int);
    }
    let r = vstd::slice::slice_to_vec(vstd::slice::slice_subrange(b, at, at + n));
    assert(b@.subrange(at as int, at + n as int) =~= s.take(n as int));
    r
}

/// The name held in `len` zero-padded bytes at `at`, in upper case.
pub fn read_padded_name(b: &[u8], at: usize, len: usize) -> (r: Vec<u8>)
    requires
        at + len <= b@.len(),
    ensures
        r@ == padded_name(b@.subrange(at as int, at + len)),
{
    let ghost s = b@.subrange(at as int, at + len);
    let blen = b.len();
    let mut n: usize = 0;
    while n < len && b[at + n] != 0
        invariant
            n <= len,
            at + len <= b@.len(),
            blen == b@.len(),
            s == b@.subrange(at as int, at + len),
            forall|j: int| 0 <= j < n ==> s[j] != 0,
        decreases len - n,
    {
        n = n + 1;
    }
    proof {
        lemma_name_prefix_stop(s, n as int);
    }
    let r = upper_case(vstd::slice::slice_subrange(b, at, at + n));
    assert(b@.subrange(at as int, at + n as int) =~= s.take(n as int));
    r
}

} // verus!
