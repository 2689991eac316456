use crate::open_entry::{
    entry_rank, entry_rank_mirror, entry_rank_same, entry_rank_transitive, OpenEntry,
    OpenEntryView,
};
use crate::text::Rank;
use vstd::prelude::*;

verus! {

/// Every earlier element stands strictly before every later one.
pub open spec fn strictly_sorted(s: Seq<OpenEntryView>) -> bool {
    forall|i: int, j: int| 0 <= i < j < s.len() ==> entry_rank(s[i], s[j]) == Rank::Before
}

/// The set `s` with the membership of `key` flipped.
pub open spec fn toggled(s: Set<OpenEntryView>, key: OpenEntryView) -> Set<OpenEntryView> {
    if s.contains(key) {
        s.remove(key)
    } else {
        s.insert(key)
    }
}

/// Values of a run of identities, in the same order.
pub open spec fn entry_views(s: Seq<OpenEntry>) -> Seq<OpenEntryView> {
    s.map_values(|e: OpenEntry| e@)
}

/// A strictly sorted sequence holds no element twice.
pub proof fn sorted_has_no_duplicates(s: Seq<OpenEntryView>)
    requires
        strictly_sorted(s),
    ensures
        s.no_duplicates(),
{
    assert forall|i: int, j: int| 0 <= i < s.len() && 0 <= j < s.len() && i != j implies s[i]
        != s[j] by {
        entry_rank_same(s[i], s[j]);
        if i < j {
            assert(entry_rank(s[i], s[j]) == Rank::Before);
        } else {
            assert(entry_rank(s[j], s[i]) == Rank::Before);
            entry_rank_mirror(s[j], s[i]);
        }
    }
}

/// The order of a sorted set does not depend on how it was built: two
/// strictly sorted sequences with the same elements are the same sequence.
pub proof fn sorted_order_is_unique(a: Seq<OpenEntryView>, b: Seq<OpenEntryView>)
    requires
        strictly_sorted(a),
        strictly_sorted(b),
        a.to_set() == b.to_set(),
    ensures
        a == b,
    decreases a.len(),
{
    if a.len() == 0 {
        if b.len() > 0 {
            assert(b.contains(b[0]));
            assert(b.to_set().contains(b[0]));
            assert(a.contains(b[0]));
        }
        assert(a =~= b);
    } else {
        let la = a.last();
        assert(a.contains(la));
        assert(a.to_set().contains(la));
        assert(b.contains(la));
        let lb = b.last();
        assert(b.contains(lb));
        assert(b.to_set().contains(lb));
        assert(a.contains(lb));
        let j = choose|j: int| 0 <= j < b.len() && b[j] == la;
        let i = choose|i: int| 0 <= i < a.len() && a[i] == lb;
        entry_rank_same(la, lb);
        entry_rank_mirror(la, lb);
        if j < b.len() - 1 {
            assert(entry_rank(b[j], b[b.len() - 1]) == Rank::Before);
        }
        if i < a.len() - 1 {
            assert(entry_rank(a[i], a[a.len() - 1]) == Rank::Before);
        }
        assert(la == lb);
        let ra = a.drop_last();
        let rb = b.drop_last();
        sorted_has_no_duplicates(a);
        sorted_has_no_duplicates(b);
        assert forall|x: OpenEntryView| ra.contains(x) <==> rb.contains(x) by {
            if ra.contains(x) {
                let p = choose|p: int| 0 <= p < ra.len() && ra[p] == x;
                assert(a[p] == x);
                assert(a.contains(x));
                assert(a.to_set().contains(x));
                assert(b.contains(x));
                let q = choose|q: int| 0 <= q < b.len() && b[q] == x;
                assert(q < b.len() - 1);
                assert(rb[q] == x);
            }
            if rb.contains(x) {
                let p = choose|p: int| 0 <= p < rb.len() && rb[p] == x;
                assert(b[p] == x);
                assert(b.contains(x));
                assert(b.to_set().contains(x));
                assert(a.contains(x));
                let q = choose|q: int| 0 <= q < a.len() && a[q] == x;
                assert(q < a.len() - 1);
                assert(ra[q] == x);
            }
        }
        assert(ra.to_set() =~= rb.to_set());
        sorted_order_is_unique(ra, rb);
        assert(a =~= ra.push(la));
        assert(b =~= rb.push(lb));
    }
}

/// Inserting `key` where the order asks for it keeps the sequence sorted and
/// adds exactly `key` to its elements.
proof fn insert_keeps_sorted(s: Seq<OpenEntryView>, at: int, key: OpenEntryView)
    requires
        strictly_sorted(s),
        0 <= at <= s.len(),
        forall|i: int| 0 <= i < at ==> entry_rank(#[trigger] s[i], key) == Rank::Before,
        forall|i: int| at <= i < s.len() ==> entry_rank(#[trigger] s[i], key) == Rank::After,
    ensures
        strictly_sorted(s.insert(at, key)),
        !s.contains(key),
        s.insert(at, key).to_set() == s.to_set().insert(key),
{
    let t = s.insert(at, key);
    assert forall|i: int, j: int| 0 <= i < j < t.len() implies entry_rank(t[i], t[j])
        == Rank::Before by {
        if i == at {
            assert(t[j] == s[j - 1]);
            entry_rank_mirror(s[j - 1], key);
        } else if j == at {
            assert(t[i] == s[i]);
        } else {
            let si = if i < at { i } else { i - 1 };
            let sj = if j < at { j } else { j - 1 };
            assert(t[i] == s[si] && t[j] == s[sj]);
        }
    }
    if s.contains(key) {
        let p = choose|p: int| 0 <= p < s.len() && s[p] == key;
        entry_rank_same(s[p], key);
    }
    assert forall|x: OpenEntryView| t.contains(x) <==> (x == key || s.contains(x)) by {
        if t.contains(x) {
            let p = choose|p: int| 0 <= p < t.len() && t[p] == x;
            if p < at {
                assert(s[p] == x);
            } else if p > at {
                assert(s[p - 1] == x);
            }
        }
        if s.contains(x) {
            let p = choose|p: int| 0 <= p < s.len() && s[p] == x;
            if p < at {
                assert(t[p] == x);
            } else {
                assert(t[p + 1] == x);
            }
        }
        if x == key {
            assert(t[at] == x);
        }
    }
    assert(t.to_set() =~= s.to_set().insert(key));
}

/// Removing the element at `at` keeps the sequence sorted and takes exactly
/// that element away.
proof fn remove_keeps_sorted(s: Seq<OpenEntryView>, at: int)
    requires
        strictly_sorted(s),
        0 <= at < s.len(),
    ensures
        strictly_sorted(s.remove(at)),
        s.remove(at).to_set() == s.to_set().remove(s[at]),
{
    let t = s.remove(at);
    let key = s[at];
    sorted_has_no_duplicates(s);
    assert forall|i: int, j: int| 0 <= i < j < t.len() implies entry_rank(t[i], t[j])
        == Rank::Before by {
        let si = if i < at { i } else { i + 1 };
        let sj = if j < at { j } else { j + 1 };
        assert(t[i] == s[si] && t[j] == s[sj]);
    }
    assert forall|x: OpenEntryView| t.contains(x) <==> (x != key && s.contains(x)) by {
        if t.contains(x) {
            let p = choose|p: int| 0 <= p < t.len() && t[p] == x;
            let sp = if p < at { p } else { p + 1 };
            assert(s[sp] == x);
        }
        if x != key && s.contains(x) {
            let p = choose|p: int| 0 <= p < s.len() && s[p] == x;
            if p < at {
                assert(t[p] == x);
            } else {
                assert(t[p - 1] == x);
            }
        }
    }
    assert(t.to_set() =~= s.to_set().remove(key));
}

/// The identities a user has expanded, kept strictly sorted so that
/// membership is a binary search and the stored order is a function of the
/// set alone.
pub struct OpenEntries {
    entries: Vec<OpenEntry>,
}

impl View for OpenEntries {
    type V = Seq<OpenEntryView>;

    closed spec fn view(&self) -> Seq<OpenEntryView> {
        entry_views(self.entries@)
    }
}

impl OpenEntries {
    /// The stored sequence is strictly sorted.
    pub open spec fn wf(&self) -> bool {
        strictly_sorted(self@)
    }

    /// Whether `key` is among the expanded identities.
    pub open spec fn has(&self, key: OpenEntryView) -> bool {
        self@.contains(key)
    }

    /// An empty set.
    pub fn new() -> (r: OpenEntries)
        ensures
            r.wf(),
            r@ == Seq::<OpenEntryView>::empty(),
    {
        let r = OpenEntries { entries: Vec::new() };
        assert(r@ =~= Seq::<OpenEntryView>::empty());
        r
    }

    /// The set is stored in memory, so its size is a machine number.
    pub proof fn len_is_bounded(&self)
        ensures
            self@.len() <= usize::MAX,
    {
        assert(self@.len() == self.entries.len());
    }

    /// Number of expanded identities.
    pub fn len(&self) -> (n: usize)
        ensures
            n == self@.len(),
    {
        self.entries.len()
    }

    /// The identity stored at position `i`.
    pub fn get(&self, i: usize) -> (r: Option<&OpenEntry>)
        ensures
            match r {
                Some(e) => i < self@.len() && e@ == self@[i as int],
                None => i >= self@.len(),
            },
    {
        if i < self.entries.len() {
            Some(&self.entries[i])
        } else {
            None
        }
    }

    /// Binary search for `key`: `Ok` with its position, or `Err` with the
    /// position at which it would have to be inserted.
    fn search(&self, key: &OpenEntry) -> (r: Result<usize, usize>)
        requires
            self.wf(),
        ensures
            match r {
                Ok(at) => at < self@.len() && self@[at as int] == key@,
                Err(at) => {
                    &&& at <= self@.len()
                    &&& forall|i: int|
                        0 <= i < at ==> entry_rank(#[trigger] self@[i], key@) == Rank::Before
                    &&& forall|i: int|
                        at <= i < self@.len() ==> entry_rank(#[trigger] self@[i], key@)
                            == Rank::After
                },
            },
    {
        let mut lo: usize = 0;
        let mut hi: usize = self.entries.len();
        while lo < hi
            invariant
                self.wf(),
                0 <= lo <= hi <= self.entries.len(),
                self@.len() == self.entries.len(),
                forall|i: int| 0 <= i < lo ==> entry_rank(#[trigger] self@[i], key@) == Rank::Before,
                forall|i: int|
                    hi <= i < self@.len() ==> entry_rank(#[trigger] self@[i], key@) == Rank::After,
            decreases hi - lo,
        {
            let mid: usize = lo + (hi - lo) / 2;
            let found = self.entries[mid].rank(key);
            assert(self@[mid as int] == self.entries[mid as int]@);
            match found {
                Rank::Same => {
                    proof {
                        entry_rank_same(self@[mid as int], key@);
                    }
                    return Ok(mid);
                },
                Rank::Before => {
                    proof {
                        assert forall|i: int| 0 <= i < mid + 1 implies entry_rank(
                            #[trigger] self@[i],
                            key@,
                        ) == Rank::Before by {
                            if i < mid {
                                entry_rank_transitive(self@[i], self@[mid as int], key@);
                            }
                        }
                    }
                    lo = mid + 1;
                },
                Rank::After => {
                    proof {
                        assert forall|i: int| mid <= i < self@.len() implies entry_rank(
                            #[trigger] self@[i],
                            key@,
                        ) == Rank::After by {
                            if i > mid {
                                entry_rank_mirror(self@[mid as int], key@);
                                entry_rank_transitive(key@, self@[mid as int], self@[i]);
                                entry_rank_mirror(key@, self@[i]);
                            }
                        }
                    }
                    hi = mid;
                },
            }
        }
        Err(lo)
    }

    /// Whether `key` is expanded.
    pub fn is_open(&self, key: &OpenEntry) -> (r: bool)
        requires
            self.wf(),
        ensures
            r == self.has(key@),
    {
        match self.search(key) {
            Ok(_) => true,
            Err(at) => {
                proof {
                    if self@.contains(key@) {
                        let p = choose|p: int| 0 <= p < self@.len() && self@[p] == key@;
                        entry_rank_same(self@[p], key@);
                    }
                }
                false
            },
        }
    }

    /// Collapses `key` if it is expanded and expands it if it is not. No
    /// other identity changes.
    pub fn toggle(&mut self, key: &OpenEntry)
        requires
            old(self).wf(),
        ensures
            final(self).wf(),
            final(self)@.to_set() == toggled(old(self)@.to_set(), key@),
            final(self).has(key@) == !old(self).has(key@),
    {
        let ghost before = self@;
        match self.search(key) {
            Ok(at) => {
                let _ = self.entries.remove(at);
                proof {
                    assert(self@ =~= before.remove(at as int));
                    remove_keeps_sorted(before, at as int);
                    assert(before.contains(key@));
                    assert(!self@.to_set().contains(key@));
                }
            },
            Err(at) => {
                let fresh = key.clone();
                self.entries.insert(at, fresh);
                proof {
                    assert(self@ =~= before.insert(at as int, key@));
                    insert_keeps_sorted(before, at as int, key@);
                    assert(self@.to_set().contains(key@));
                }
            },
        }
    }
}

/// Toggling the same identity twice leaves the set as it was, down to the
/// stored order.
pub proof fn toggle_twice_restores(
    start: Seq<OpenEntryView>,
    once: Seq<OpenEntryView>,
    twice: Seq<OpenEntryView>,
    key: OpenEntryView,
)
    requires
        strictly_sorted(start),
        strictly_sorted(once),
        strictly_sorted(twice),
        once.to_set() == toggled(start.to_set(), key),
        twice.to_set() == toggled(once.to_set(), key),
    ensures
        twice == start,
{
    assert(twice.to_set() =~= start.to_set());
    sorted_order_is_unique(twice, start);
}

} // verus!
