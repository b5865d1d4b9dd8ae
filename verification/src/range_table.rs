//! Sorted, disjoint code-point range tables with verified binary search.
//!
//! A [`RangeTable`] answers membership of a code point in a set given as a
//! sorted sequence of disjoint inclusive ranges. A [`FoldTable`] maps single
//! code points to short replacement sequences, keyed by exact code point.
//! Both are searched by binary search, whose answer is proved equal to the
//! plain membership statement over the whole entry sequence.
use vstd::prelude::*;

verus! {

/// Ranges are strictly ascending and pairwise disjoint: each entry is a
/// non-empty inclusive range, and each entry ends before the next begins.
pub open spec fn ranges_well_formed(s: Seq<(u32, u32)>) -> bool {
    &&& forall|i: int| 0 <= i < s.len() ==> (#[trigger] s[i]).0 <= s[i].1
    &&& forall|i: int| 0 <= i && i + 1 < s.len() ==> (#[trigger] s[i]).1 < s[i + 1].0
}

/// Membership of a code point, stated over every entry: some range holds it.
pub open spec fn ranges_contain(s: Seq<(u32, u32)>, cp: u32) -> bool {
    exists|i: int| 0 <= i < s.len() && (#[trigger] s[i]).0 <= cp && cp <= s[i].1
}

/// In a well-formed table, an earlier range ends before a later one begins.
pub proof fn lemma_ranges_ordered(s: Seq<(u32, u32)>, i: int, j: int)
    requires
        ranges_well_formed(s),
        0 <= i < j < s.len(),
    ensures
        s[i].1 < s[j].0,
    decreases j - i,
{
    if i + 1 < j {
        lemma_ranges_ordered(s, i, j - 1);
        assert(s[j - 1].0 <= s[j - 1].1);
    }
}

/// A sorted table of disjoint inclusive code-point ranges.
pub struct RangeTable {
    entries: Vec<(u32, u32)>,
}

impl View for RangeTable {
    type V = Seq<(u32, u32)>;

    closed spec fn view(&self) -> Seq<(u32, u32)> {
        self.entries@
    }
}

impl RangeTable {
    /// The table invariant: see [`ranges_well_formed`].
    pub open spec fn wf(&self) -> bool {
        ranges_well_formed(self@)
    }

    /// An empty table.
    pub fn new() -> (t: Self)
        ensures
            t@ == Seq::<(u32, u32)>::empty(),
            t.wf(),
    {
        RangeTable { entries: Vec::new() }
    }

    /// Appends a range that begins after the current last range ends,
    /// keeping the table well formed.
    pub fn push_range(&mut self, start: u32, end: u32)
        requires
            old(self).wf(),
            start <= end,
            old(self)@.len() > 0 ==> old(self)@.last().1 < start,
        ensures
            final(self)@ == old(self)@.push((start, end)),
            final(self).wf(),
    {
        self.entries.push((start, end));
        proof {
            let s = self@;
            assert forall|i: int| 0 <= i && i + 1 < s.len() implies (#[trigger] s[i]).1 < s[i + 1].0 by {
                if i + 1 == s.len() - 1 {
                    assert(s[i] == old(self)@.last());
                }
            }
        }
    }

    /// Binary-search membership: does some range hold this code point?
    pub fn contains(&self, cp: u32) -> (r: bool)
        requires
            self.wf(),
        ensures
            r == ranges_contain(self@, cp),
    {
        let mut lo: usize = 0;
        let mut hi: usize = self.entries.len();
        while lo < hi
            invariant
                lo <= hi <= self@.len(),
                self.wf(),
                forall|i: int| 0 <= i < lo ==> (#[trigger] self@[i]).1 < cp,
                forall|i: int| hi <= i < self@.len() ==> cp < (#[trigger] self@[i]).0,
            decreases hi - lo,
        {
            let mid = lo + (hi - lo) / 2;
            let (start, end) = self.entries[mid];
            if end < cp {
                lo = mid + 1;
                proof {
                    assert forall|i: int| 0 <= i < lo implies (#[trigger] self@[i]).1 < cp by {
                        if i < mid {
                            lemma_ranges_ordered(self@, i, mid as int);
                        }
                    }
                }
            } else if cp < start {
                hi = mid;
                proof {
                    assert forall|i: int| hi <= i < self@.len() implies cp < (
                    #[trigger] self@[i]).0 by {
                        if mid < i {
                            lemma_ranges_ordered(self@, mid as int, i);
                        }
                    }
                }
            } else {
                assert(self@[mid as int].0 <= cp && cp <= self@[mid as int].1);
                return true;
            }
        }
        assert forall|i: int| 0 <= i < self@.len() implies !((#[trigger] self@[i]).0 <= cp && cp
            <= self@[i].1) by {
            if i < lo {
            } else {
                assert(cp < self@[i].0);
            }
        }
        false
    }

    /// Linear-scan membership: the same answer as [`RangeTable::contains`],
    /// found by walking every entry.
    pub fn contains_linear(&self, cp: u32) -> (r: bool)
        requires
            self.wf(),
        ensures
            r == ranges_contain(self@, cp),
    {
        let n = self.entries.len();
        let mut i: usize = 0;
        while i < n
            invariant
                0 <= i <= n == self@.len(),
                forall|j: int| 0 <= j < i ==> !((#[trigger] self@[j]).0 <= cp && cp <= self@[j].1),
            decreases n - i,
        {
            let (start, end) = self.entries[i];
            if start <= cp && cp <= end {
                return true;
            }
            i = i + 1;
        }
        false
    }
}

/// One case-fold mapping: a code-point key and its replacement of up to four
/// characters (a count of zero means the key maps to nothing).
#[derive(Clone, Copy)]
pub struct FoldEntry {
    pub key: u32,
    pub count: u8,
    pub r0: char,
    pub r1: char,
    pub r2: char,
    pub r3: char,
}

impl FoldEntry {
    /// The replacement sequence this entry maps its key to.
    pub open spec fn repl(self) -> Seq<char> {
        if self.count == 0 {
            Seq::empty()
        } else if self.count == 1 {
            seq![self.r0]
        } else if self.count == 2 {
            seq![self.r0, self.r1]
        } else if self.count == 3 {
            seq![self.r0, self.r1, self.r2]
        } else {
            seq![self.r0, self.r1, self.r2, self.r3]
        }
    }
}

/// Keys are strictly ascending and every count is at most four.
pub open spec fn fold_well_formed(s: Seq<FoldEntry>) -> bool {
    &&& forall|i: int| 0 <= i < s.len() ==> (#[trigger] s[i]).count <= 4
    &&& forall|i: int| 0 <= i && i + 1 < s.len() ==> (#[trigger] s[i]).key < s[i + 1].key
}

/// The entry holding the given key, if any.
pub open spec fn fold_entry_for(s: Seq<FoldEntry>, cp: u32) -> Option<FoldEntry> {
    if exists|i: int| 0 <= i < s.len() && (#[trigger] s[i]).key == cp {
        Some(s[choose|i: int| 0 <= i < s.len() && (#[trigger] s[i]).key == cp])
    } else {
        None
    }
}

/// What a character folds to under the table: the keyed replacement on a
/// hit, the character itself on a miss.
pub open spec fn fold_lookup(s: Seq<FoldEntry>, c: char) -> Seq<char> {
    match fold_entry_for(s, c as u32) {
        Some(e) => e.repl(),
        None => seq![c],
    }
}

/// In a well-formed fold table, earlier keys are smaller.
pub proof fn lemma_fold_ordered(s: Seq<FoldEntry>, i: int, j: int)
    requires
        fold_well_formed(s),
        0 <= i < j < s.len(),
    ensures
        s[i].key < s[j].key,
    decreases j - i,
{
    if i + 1 < j {
        lemma_fold_ordered(s, i, j - 1);
    }
}

/// A sorted table of single-key case-fold mappings.
pub struct FoldTable {
    entries: Vec<FoldEntry>,
}

impl View for FoldTable {
    type V = Seq<FoldEntry>;

    closed spec fn view(&self) -> Seq<FoldEntry> {
        self.entries@
    }
}

impl FoldTable {
    /// The table invariant: see [`fold_well_formed`].
    pub open spec fn wf(&self) -> bool {
        fold_well_formed(self@)
    }

    /// An empty table.
    pub fn new() -> (t: Self)
        ensures
            t@ == Seq::<FoldEntry>::empty(),
            t.wf(),
    {
        FoldTable { entries: Vec::new() }
    }

    /// Appends a mapping whose key exceeds the current last key, keeping the
    /// table well formed.
    pub fn push_entry(&mut self, e: FoldEntry)
        requires
            old(self).wf(),
            e.count <= 4,
            old(self)@.len() > 0 ==> old(self)@.last().key < e.key,
        ensures
            final(self)@ == old(self)@.push(e),
            final(self).wf(),
    {
        self.entries.push(e);
        proof {
            let s = self@;
            assert forall|i: int| 0 <= i && i + 1 < s.len() implies (#[trigger] s[i]).key < s[i
                + 1].key by {
                if i + 1 == s.len() - 1 {
                    assert(s[i] == old(self)@.last());
                }
            }
        }
    }

    /// Binary search by exact key.
    pub fn lookup(&self, cp: u32) -> (r: Option<FoldEntry>)
        requires
            self.wf(),
        ensures
            r == fold_entry_for(self@, cp),
    {
        let mut lo: usize = 0;
        let mut hi: usize = self.entries.len();
        while lo < hi
            invariant
                lo <= hi <= self@.len(),
                self.wf(),
                forall|i: int| 0 <= i < lo ==> (#[trigger] self@[i]).key < cp,
                forall|i: int| hi <= i < self@.len() ==> cp < (#[trigger] self@[i]).key,
            decreases hi - lo,
        {
            let mid = lo + (hi - lo) / 2;
            let key = self.entries[mid].key;
            if key < cp {
                lo = mid + 1;
                proof {
                    assert forall|i: int| 0 <= i < lo implies (#[trigger] self@[i]).key < cp by {
                        if i < mid {
                            lemma_fold_ordered(self@, i, mid as int);
                        }
                    }
                }
            } else if cp < key {
                hi = mid;
                proof {
                    assert forall|i: int| hi <= i < self@.len() implies cp < (
                    #[trigger] self@[i]).key by {
                        if mid < i {
                            lemma_fold_ordered(self@, mid as int, i);
                        }
                    }
                }
            } else {
                let e = self.entries[mid];
                proof {
                    let w = choose|i: int| 0 <= i < self@.len() && (#[trigger] self@[i]).key == cp;
                    if w < mid as int {
                        lemma_fold_ordered(self@, w, mid as int);
                    } else if w > mid as int {
                        lemma_fold_ordered(self@, mid as int, w);
                    }
                }
                return Some(e);
            }
        }
        assert forall|i: int| 0 <= i < self@.len() implies (#[trigger] self@[i]).key != cp by {
            if i < lo {
            } else {
                assert(cp < self@[i].key);
            }
        }
        None
    }

    /// Linear-scan lookup: the same answer as [`FoldTable::lookup`], found
    /// by walking every entry.
    pub fn lookup_linear(&self, cp: u32) -> (r: Option<FoldEntry>)
        requires
            self.wf(),
        ensures
            r == fold_entry_for(self@, cp),
    {
        let n = self.entries.len();
        let mut i: usize = 0;
        while i < n
            invariant
                0 <= i <= n == self@.len(),
                self.wf(),
                forall|j: int| 0 <= j < i ==> (#[trigger] self@[j]).key != cp,
            decreases n - i,
        {
            if self.entries[i].key == cp {
                let e = self.entries[i];
                proof {
                    let w = choose|j: int| 0 <= j < self@.len() && (#[trigger] self@[j]).key == cp;
                    if w < i as int {
                        lemma_fold_ordered(self@, w, i as int);
                    } else if w > i as int {
                        lemma_fold_ordered(self@, i as int, w);
                    }
                }
                return Some(e);
            }
            i = i + 1;
        }
        None
    }
}

/// Well-formedness is preserved by concatenation when the first table ends
/// before the second begins.
pub proof fn lemma_ranges_wf_concat(a: Seq<(u32, u32)>, b: Seq<(u32, u32)>)
    requires
        ranges_well_formed(a),
        ranges_well_formed(b),
        a.len() > 0 && b.len() > 0 ==> a.last().1 < b[0].0,
    ensures
        ranges_well_formed(a + b),
{
    assert forall|i: int| 0 <= i < (a + b).len() implies ((#[trigger] (a + b)[i]).0 <= (a
        + b)[i].1) by {
        if i < a.len() {
            assert((a + b)[i] == a[i]);
        } else {
            assert((a + b)[i] == b[i - a.len()]);
        }
    }
    assert forall|i: int| 0 <= i && i + 1 < (a + b).len() implies ((#[trigger] (a + b)[i]).1 < (a
        + b)[i + 1].0) by {
        if i + 1 < a.len() {
            assert((a + b)[i] == a[i]);
            assert((a + b)[i + 1] == a[i + 1]);
        } else if i + 1 == a.len() {
            assert((a + b)[i] == a[i]);
            assert(a[i] == a.last());
            assert((a + b)[i + 1] == b[0]);
        } else {
            assert((a + b)[i] == b[i - a.len()]);
            assert((a + b)[i + 1] == b[i + 1 - a.len()]);
        }
    }
}

/// Key ordering and count bounds are preserved by concatenation when the
/// first table's last key is below the second's first key.
pub proof fn lemma_fold_wf_concat(a: Seq<FoldEntry>, b: Seq<FoldEntry>)
    requires
        fold_well_formed(a),
        fold_well_formed(b),
        a.len() > 0 && b.len() > 0 ==> a.last().key < b[0].key,
    ensures
        fold_well_formed(a + b),
{
    assert forall|i: int| 0 <= i < (a + b).len() implies ((#[trigger] (a + b)[i]).count <= 4) by {
        if i < a.len() {
            assert((a + b)[i] == a[i]);
        } else {
            assert((a + b)[i] == b[i - a.len()]);
        }
    }
    assert forall|i: int| 0 <= i && i + 1 < (a + b).len() implies ((#[trigger] (a + b)[i]).key < (a
        + b)[i + 1].key) by {
        if i + 1 < a.len() {
            assert((a + b)[i] == a[i]);
            assert((a + b)[i + 1] == a[i + 1]);
        } else if i + 1 == a.len() {
            assert((a + b)[i] == a[i]);
            assert(a[i] == a.last());
            assert((a + b)[i + 1] == b[0]);
        } else {
            assert((a + b)[i] == b[i - a.len()]);
            assert((a + b)[i + 1] == b[i + 1 - a.len()]);
        }
    }
}

} // verus!
