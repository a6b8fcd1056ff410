use vstd::prelude::*;

verus! {

/// Entries 2048 to 2048 of the arc tangent table.
pub closed spec fn entry(i: int) -> u32 {
    ENTRIES[i]
}

pub fn entry_at(i: usize) -> (r: u32)
    requires
        i < 1,
    ensures
        r == entry(i as int),
{
    ENTRIES[i]
}

const ENTRIES: [u32; 1] = [
    536870912,
];


} // verus!
