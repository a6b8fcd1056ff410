use vstd::prelude::*;

verus! {

/// A run of screen columns `first..=last`.
#[derive(Copy, Clone, Debug, PartialEq, Eq, Structural)]
pub struct ClipRange {
    pub first: i32,
    pub last: i32,
}

/// Whether column `x` lies in one of the ranges.
pub open spec fn covered(segs: Seq<ClipRange>, x: int) -> bool {
    exists|i: int| 0 <= i < segs.len() && (#[trigger] segs[i]).first <= x <= segs[i].last
}

/// The ranges are non-empty, in order, and neither overlap nor touch.
pub open spec fn ordered(segs: Seq<ClipRange>) -> bool {
    &&& forall|i: int| 0 <= i < segs.len() ==> (#[trigger] segs[i]).first <= segs[i].last
    &&& forall|i: int, j: int| 0 <= i < j < segs.len() ==> (#[trigger] segs[i]).last + 1 < (#[trigger] segs[j]).first
}

/// `pieces` are the maximal runs of `first..=last` that no range of `segs` covers, in
/// order.
pub open spec fn uncovered_pieces(segs: Seq<ClipRange>, first: int, last: int, pieces: Seq<ClipRange>) -> bool {
    &&& ordered(pieces)
    &&& forall|k: int| 0 <= k < pieces.len() ==> first <= (#[trigger] pieces[k]).first && pieces[k].last <= last
    &&& forall|x: int| first <= x <= last ==> (covered(pieces, x) <==> !covered(segs, x))
}

/// The columns already closed by solid walls, as ordered ranges between two sentinels
/// that close everything left of column 0 and right of the last view column.
pub struct SolidSegs {
    pub segs: Vec<ClipRange>,
    pub view_width: usize,
}

impl SolidSegs {
    pub open spec fn wf(&self) -> bool {
        let view_width = self.view_width as int;
        &&& self.segs@.len() >= 1
        &&& self.segs@[0].first == i32::MIN + 1
        &&& self.segs@[0].last >= -1
        &&& self.segs@.last().last == i32::MAX
        &&& self.segs@.last().first <= view_width
        &&& ordered(self.segs@)
    }

    /// The two sentinels only.
    pub fn new(view_width: usize) -> (r: Self)
        requires
            1 <= view_width <= 320,
        ensures
            r.wf(),
            r.view_width == view_width,
            r.segs@ == seq![ClipRange { first: (i32::MIN + 1) as i32, last: -1i32 }, ClipRange { first: view_width as i32, last: i32::MAX }],
    {
        let mut segs: Vec<ClipRange> = Vec::new();
        segs.push(ClipRange { first: i32::MIN + 1, last: -1 });
        segs.push(ClipRange { first: view_width as i32, last: i32::MAX });
        SolidSegs { segs, view_width }
    }

    /// The parts of `first..=last` that no range closes, left to right.
    pub fn visible_fragments(&self, first: i32, last: i32) -> (r: Vec<ClipRange>)
        requires
            self.wf(),
            0 <= first <= last < i32::MAX,
        ensures
            uncovered_pieces(self.segs@, first as int, last as int, r@),
    {
        let n = self.segs.len();
        let mut r: Vec<ClipRange> = Vec::new();
        let mut i: usize = 0;
        while i + 1 < n
            invariant
                n == self.segs@.len(),
                self.wf(),
                0 <= first <= last < i32::MAX,
                i + 1 <= n,
                ordered(r@),
                forall|k: int| 0 <= k < r@.len() ==> first <= (#[trigger] r@[k]).first && r@[k].last <= last
                    && r@[k].last < self.segs@[i as int].first,
                forall|x: int| first <= x <= last && x <= self.segs@[i as int].last ==> (covered(r@, x) <==> !covered(self.segs@, x)),
                forall|x: int| x > self.segs@[i as int].last ==> !covered(r@, x),
            decreases n - i,
        {
            let lo0 = self.segs[i].last + 1;
            let hi0 = self.segs[i + 1].first - 1;
            let lo = if lo0 > first { lo0 } else { first };
            let hi = if hi0 < last { hi0 } else { last };
            let ghost before = r@;
            if lo <= hi {
                r.push(ClipRange { first: lo, last: hi });
            }
            proof {
                let s = self.segs@;
                assert(s[i as int].last + 1 < s[i + 1].first);
                assert forall|a: int, b: int| 0 <= a < b < r@.len() implies (#[trigger] r@[a]).last + 1 < (#[trigger] r@[b]).first by {
                    if b == r@.len() - 1 && r@.len() > before.len() {
                        assert(r@[a] == before[a]);
                    } else {
                        assert(r@[a] == before[a] && r@[b] == before[b]);
                    }
                }
                assert forall|x: int| first <= x <= last && x <= s[i + 1].last implies (covered(r@, x) <==> !covered(s, x)) by {
                    if x <= s[i as int].last {
                        if covered(r@, x) {
                            let k = choose|k: int| 0 <= k < r@.len() && (#[trigger] r@[k]).first <= x <= r@[k].last;
                            if k < before.len() {
                                assert(covered(before, x));
                            }
                        }
                        if covered(before, x) {
                            let k = choose|k: int| 0 <= k < before.len() && (#[trigger] before[k]).first <= x <= before[k].last;
                            assert(r@[k] == before[k]);
                        }
                    } else if x < s[i + 1].first {
                        assert(!covered(before, x));
                        assert forall|j: int| 0 <= j < s.len() implies !((#[trigger] s[j]).first <= x <= s[j].last) by {
                            if j < i {
                                assert(s[j].last + 1 < s[i as int].first);
                            } else if j > i + 1 {
                                assert(s[i + 1].last + 1 < s[j].first);
                            }
                        }
                        assert(r@[r@.len() - 1].first <= x <= r@[r@.len() - 1].last);
                    } else {
                        assert(s[i + 1].first <= x <= s[i + 1].last);
                        assert(!covered(before, x));
                        if covered(r@, x) {
                            let k = choose|k: int| 0 <= k < r@.len() && (#[trigger] r@[k]).first <= x <= r@[k].last;
                            if k < before.len() {
                                assert(covered(before, x));
                            }
                        }
                    }
                }
                assert forall|x: int| x > s[i + 1].last implies !covered(r@, x) by {
                    if covered(r@, x) {
                        let k = choose|k: int| 0 <= k < r@.len() && (#[trigger] r@[k]).first <= x <= r@[k].last;
                        if k < before.len() {
                            assert(covered(before, x));
                        }
                    }
                }
            }
            i = i + 1;
        }
        proof {
            assert(self.segs@[n - 1].last == i32::MAX);
        }
        r
    }

    /// Closes the columns `first..=last`, merging the ranges they overlap or touch.
    pub fn add_solid(&mut self, first: i32, last: i32)
        requires
            old(self).wf(),
            0 <= first <= last < i32::MAX - 1,
        ensures
            final(self).wf(),
            final(self).view_width == old(self).view_width,
            forall|x: int| covered(old(self).segs@, x) ==> #[trigger] covered(final(self).segs@, x),
            forall|x: int| first <= x <= last ==> #[trigger] covered(final(self).segs@, x),
            forall|x: int| #[trigger] covered(final(self).segs@, x) ==> covered(old(self).segs@, x) || first <= x <= last,
    {
        let n = self.segs.len();
        let ghost s = self.segs@;
        let mut out: Vec<ClipRange> = Vec::new();
        let mut i: usize = 0;
        while i < n && self.segs[i].last < first - 1
            invariant
                n == s.len(),
                self.segs@ == s,
                s == old(self).segs@,
                old(self).wf(),
                0 <= first <= last < i32::MAX - 1,
                i <= n,
                out@ == s.subrange(0, i as int),
                forall|k: int| 0 <= k < i ==> (#[trigger] s[k]).last < first - 1,
            decreases n - i,
        {
            out.push(self.segs[i]);
            i = i + 1;
        }
        assert(i < n);
        assert(s[i as int].last >= first - 1);
        let start = i;
        let mut merged = ClipRange { first, last };
        while i < n && self.segs[i].first <= last + 1
            invariant
                n == s.len(),
                self.segs@ == s,
                s == old(self).segs@,
                old(self).wf(),
                0 <= first <= last < i32::MAX - 1,
                start <= i <= n,
                start < n,
                out@ == s.subrange(0, start as int),
                merged.first <= first,
                merged.last >= last,
                i > start ==> merged.first == (if s[start as int].first < first { s[start as int].first } else { first }),
                i == start ==> merged.first == first,
                i > start ==> merged.last == (if s[i - 1].last > last { s[i - 1].last } else { last }),
                i == start ==> merged.last == last,
                s[start as int].last >= first - 1,
                forall|k: int| start <= k < i ==> (#[trigger] s[k]).first <= last + 1,
            decreases n - i,
        {
            let r = self.segs[i];
            if r.first < merged.first {
                merged.first = r.first;
            }
            if r.last > merged.last {
                merged.last = r.last;
            }
            proof {
                if i > start {
                    assert(s[start as int].first <= s[i as int].first);
                    assert(s[i - 1].last <= s[i as int].last);
                }
            }
            i = i + 1;
        }
        let mid = i;
        out.push(merged);
        while i < n
            invariant
                n == s.len(),
                self.segs@ == s,
                start <= mid,
                mid <= i <= n,
                out@.len() == start + 1 + (i - mid),
                forall|k: int| 0 <= k < start ==> #[trigger] out@[k] == s[k],
                out@[start as int] == merged,
                forall|j: int| start < j < out@.len() ==> #[trigger] out@[j] == s[j - start - 1 + mid],
            decreases n - i,
        {
            out.push(self.segs[i]);
            i = i + 1;
        }
        let ghost o = out@;
        proof {
            assert forall|k: int| start <= k < mid implies merged.first <= (#[trigger] s[k]).first && s[k].last <= merged.last by {
                assert(s[start as int].first <= s[k].first);
                assert(s[k].last <= s[mid - 1].last);
            }
            assert forall|a: int| 0 <= a < o.len() implies (#[trigger] o[a]).first <= o[a].last by {
                if a > start {
                    assert(o[a] == s[a - start - 1 + mid]);
                }
            }
            assert forall|a: int, b: int| 0 <= a < b < o.len() implies (#[trigger] o[a]).last + 1 < (#[trigger] o[b]).first by {
                if b < start {
                } else if b == start {
                    assert(o[a] == s[a]);
                    assert(s[a].last < first - 1);
                    if mid > start {
                        assert(s[a].last + 1 < s[start as int].first);
                    }
                } else {
                    assert(o[b] == s[b - start - 1 + mid]);
                    assert(mid < n);
                    assert(s[mid as int].first > last + 1);
                    if mid > start {
                        assert(s[mid - 1].last + 1 < s[mid as int].first);
                    }
                    if a < start {
                        assert(o[a] == s[a]);
                    } else if a > start {
                        assert(o[a] == s[a - start - 1 + mid]);
                    }
                }
            }
            assert forall|x: int| covered(s, x) implies #[trigger] covered(o, x) by {
                let k = choose|k: int| 0 <= k < s.len() && (#[trigger] s[k]).first <= x <= s[k].last;
                if k < start {
                    assert(o[k] == s[k]);
                } else if k < mid {
                    assert(o[start as int].first <= x <= o[start as int].last);
                } else {
                    let j = start + 1 + (k - mid);
                    assert(o[j] == s[j - start - 1 + mid]);
                }
            }
            assert forall|x: int| first <= x <= last implies #[trigger] covered(o, x) by {
                assert(o[start as int].first <= x <= o[start as int].last);
            }
            assert forall|x: int| #[trigger] covered(o, x) implies covered(s, x) || first <= x <= last by {
                let k = choose|k: int| 0 <= k < o.len() && (#[trigger] o[k]).first <= x <= o[k].last;
                if k < start {
                    assert(o[k] == s[k]);
                } else if k == start {
                    if x < first {
                        assert(mid > start);
                        assert(s[start as int].first <= x);
                        assert(s[start as int].last >= first - 1);
                        assert(s[start as int].first <= x <= s[start as int].last);
                    } else if x > last {
                        assert(mid > start);
                        assert(x <= s[mid - 1].last);
                        assert(s[mid - 1].first <= last + 1);
                        assert(s[mid - 1].first <= x <= s[mid - 1].last);
                    }
                } else {
                    assert(o[k] == s[k - start - 1 + mid]);
                }
            }
            assert(o[0].first == i32::MIN + 1) by {
                if start > 0 {
                    assert(o[0] == s[0]);
                } else {
                    assert(s[0].last >= -1);
                    assert(mid > start);
                }
            }
            assert(o[0].last >= -1) by {
                if start > 0 {
                    assert(o[0] == s[0]);
                }
            }
            assert(o.last().last == i32::MAX && o.last().first <= self.view_width) by {
                if mid < n {
                    assert(o.last() == s[n - 1]);
                } else {
                    assert(s[n - 1].last == i32::MAX);
                    assert(start <= n - 1);
                    if start < n - 1 {
                        assert(s[start as int].first <= s[n - 1].first);
                    }
                }
            }
        }
        self.segs = out;
    }
}

} // verus!
