//! An ordered index from pairwise disjoint closed intervals to values.
//!
//! The index keeps its entries sorted by interval start, so that the one
//! interval that may contain a value is found by a binary search.

use vstd::prelude::*;

verus! {

/// A closed interval `[lo, hi]` of unsigned integers.
#[derive(Clone, Copy, Debug, PartialEq, Eq, Structural)]
pub struct Span {
    pub lo: u128,
    pub hi: u128,
}

impl Span {
    /// The interval is not empty.
    pub open spec fn valid(self) -> bool {
        self.lo <= self.hi
    }

    /// `x` lies in the interval.
    pub open spec fn contains(self, x: u128) -> bool {
        self.lo <= x <= self.hi
    }

    /// The two intervals share at least one value.
    pub open spec fn overlaps(self, other: Span) -> bool {
        self.lo <= other.hi && other.lo <= self.hi
    }
}

/// The keys of `m` are finitely many non-empty intervals, no two of which
/// share a value.
pub open spec fn disjoint_keys<V>(m: Map<Span, V>) -> bool {
    &&& m.dom().finite()
    &&& forall|a: Span| #[trigger] m.contains_key(a) ==> a.valid()
    &&& forall|a: Span, b: Span|
        #![trigger m.contains_key(a), m.contains_key(b)]
        m.contains_key(a) && m.contains_key(b) && a != b ==> !a.overlaps(b)
}

/// `sp` may become a key of `m`: it is not empty and shares a value with no
/// key of `m` other than `sp` itself.
pub open spec fn admits<V>(m: Map<Span, V>, sp: Span) -> bool {
    &&& sp.valid()
    &&& forall|a: Span| #[trigger] m.contains_key(a) && a != sp ==> !a.overlaps(sp)
}

/// Every key of `other` may become a key of `m`.
pub open spec fn admits_all<V>(m: Map<Span, V>, other: Map<Span, V>) -> bool {
    forall|sp: Span| #[trigger] other.contains_key(sp) ==> admits(m, sp)
}

/// The key of `m` that contains `x`, if there is one.
pub open spec fn covering<V>(m: Map<Span, V>, x: u128) -> Option<Span> {
    if exists|a: Span| #[trigger] m.contains_key(a) && a.contains(x) {
        Some(choose|a: Span| #[trigger] m.contains_key(a) && a.contains(x))
    } else {
        None
    }
}

/// In a map with disjoint keys, a key that contains `x` is the covering key.
pub proof fn lemma_covering_unique<V>(m: Map<Span, V>, sp: Span, x: u128)
    requires
        disjoint_keys(m),
        m.contains_key(sp),
        sp.contains(x),
    ensures
        covering(m, x) == Some(sp),
{
    let c = choose|a: Span| #[trigger] m.contains_key(a) && a.contains(x);
    assert(m.contains_key(c) && c.contains(x));
    assert(c.overlaps(sp));
}

/// Inserting an admitted key keeps the keys disjoint.
pub proof fn lemma_insert_keeps_disjoint<V>(m: Map<Span, V>, sp: Span, v: V)
    requires
        disjoint_keys(m),
        admits(m, sp),
    ensures
        disjoint_keys(m.insert(sp, v)),
{
    let n = m.insert(sp, v);
    assert forall|a: Span, b: Span|
        #![trigger n.contains_key(a), n.contains_key(b)]
        n.contains_key(a) && n.contains_key(b) && a != b implies !a.overlaps(b) by {
        if a == sp {
            assert(m.contains_key(b));
        } else if b == sp {
            assert(m.contains_key(a));
        } else {
            assert(m.contains_key(a) && m.contains_key(b));
        }
    }
}

/// One interval with the value stored under it.
pub struct Entry<V> {
    pub span: Span,
    pub value: V,
}

/// The entries are non-empty intervals in strictly ascending order, each
/// ending before the next begins.
pub open spec fn ordered<V>(s: Seq<Entry<V>>) -> bool {
    &&& forall|i: int| 0 <= i < s.len() ==> (#[trigger] s[i]).span.valid()
    &&& forall|i: int, j: int|
        0 <= i < j < s.len() ==> (#[trigger] s[i]).span.hi < (#[trigger] s[j]).span.lo
}

/// The map that a sequence of entries stands for.
pub open spec fn as_map<V>(s: Seq<Entry<V>>) -> Map<Span, V> {
    Map::new(
        |sp: Span| exists|i: int| 0 <= i < s.len() && (#[trigger] s[i]).span == sp,
        |sp: Span| s[choose|i: int| 0 <= i < s.len() && (#[trigger] s[i]).span == sp].value,
    )
}

/// What `as_map` holds for an ordered sequence: each entry under its own
/// interval, nothing else, and disjoint keys.
pub proof fn lemma_as_map<V>(s: Seq<Entry<V>>)
    requires
        ordered(s),
    ensures
        forall|i: int|
            0 <= i < s.len() ==> as_map(s).contains_key((#[trigger] s[i]).span) && as_map(s)[s[i].span]
                == s[i].value,
        forall|sp: Span| #[trigger]
            as_map(s).contains_key(sp) ==> exists|i: int|
                0 <= i < s.len() && (#[trigger] s[i]).span == sp,
        disjoint_keys(as_map(s)),
{
    let m = as_map(s);
    assert forall|i: int| 0 <= i < s.len() implies m.contains_key((#[trigger] s[i]).span) && m[s[i].span]
        == s[i].value by {
        let sp = s[i].span;
        let j = choose|j: int| 0 <= j < s.len() && (#[trigger] s[j]).span == sp;
        assert(s[j].span == sp);
        if j < i {
            assert(s[j].span.hi < s[i].span.lo);
        } else if i < j {
            assert(s[i].span.hi < s[j].span.lo);
        }
    }
    let spans = s.map_values(|e: Entry<V>| e.span);
    assert(m.dom() =~= spans.to_set()) by {
        assert forall|sp: Span| m.dom().contains(sp) implies spans.to_set().contains(sp) by {
            let i = choose|i: int| 0 <= i < s.len() && (#[trigger] s[i]).span == sp;
            assert(spans[i] == sp);
        }
        assert forall|sp: Span| spans.to_set().contains(sp) implies m.dom().contains(sp) by {
            let i = choose|i: int| 0 <= i < spans.len() && spans[i] == sp;
            assert(s[i].span == sp);
        }
    }
    vstd::seq_lib::seq_to_set_is_finite(spans);
    assert forall|a: Span, b: Span|
        #![trigger m.contains_key(a), m.contains_key(b)]
        m.contains_key(a) && m.contains_key(b) && a != b implies !a.overlaps(b) by {
        let i = choose|i: int| 0 <= i < s.len() && (#[trigger] s[i]).span == a;
        let j = choose|j: int| 0 <= j < s.len() && (#[trigger] s[j]).span == b;
        if i < j {
            assert(s[i].span.hi < s[j].span.lo);
        } else if j < i {
            assert(s[j].span.hi < s[i].span.lo);
        }
    }
}

/// An index from disjoint intervals to values, sorted by interval start.
pub struct IntervalMap<V> {
    entries: Vec<Entry<V>>,
}

impl<V> View for IntervalMap<V> {
    type V = Map<Span, V>;

    closed spec fn view(&self) -> Map<Span, V> {
        as_map(self.entries@)
    }
}

impl<V> IntervalMap<V> {
    #[verifier::type_invariant]
    spec fn sorted(self) -> bool {
        ordered(self.entries@)
    }

    /// An index without entries.
    pub fn new() -> (r: Self)
        ensures
            r@ == Map::<Span, V>::empty(),
    {
        let r = IntervalMap { entries: Vec::new() };
        assert(r@ =~= Map::<Span, V>::empty());
        r
    }

    /// The number of intervals in the index.
    pub fn len(&self) -> (n: usize)
        ensures
            n == self@.len(),
            disjoint_keys(self@),
    {
        proof {
            use_type_invariant(self);
            lemma_as_map(self.entries@);
            lemma_len(self.entries@);
        }
        self.entries.len()
    }

    /// How many entries start at or before `x`. As the entries ascend, these
    /// are the first ones.
    fn rank(&self, x: u128) -> (n: usize)
        ensures
            n <= self.entries.len(),
            forall|j: int| 0 <= j < n ==> (#[trigger] self.entries[j]).span.lo <= x,
            forall|j: int| n <= j < self.entries.len() ==> (#[trigger] self.entries[j]).span.lo > x,
    {
        proof {
            use_type_invariant(self);
        }
        let mut lo: usize = 0;
        let mut hi: usize = self.entries.len();
        while lo < hi
            invariant
                lo <= hi <= self.entries.len(),
                ordered(self.entries@),
                forall|j: int| 0 <= j < lo ==> (#[trigger] self.entries[j]).span.lo <= x,
                forall|j: int| hi <= j < self.entries.len() ==> (#[trigger] self.entries[j]).span.lo > x,
            decreases hi - lo,
        {
            let mid: usize = lo + (hi - lo) / 2;
            if self.entries[mid].span.lo <= x {
                assert forall|j: int| 0 <= j < mid + 1 implies (#[trigger] self.entries[j]).span.lo
                    <= x by {
                    if j < mid {
                        assert(self.entries[j].span.hi < self.entries[mid as int].span.lo);
                    }
                }
                lo = mid + 1;
            } else {
                assert forall|j: int| mid <= j < self.entries.len() implies (
                #[trigger] self.entries[j]).span.lo > x by {
                    if mid < j {
                        assert(self.entries[mid as int].span.hi < self.entries[j].span.lo);
                    }
                }
                hi = mid;
            }
        }
        lo
    }

    /// The interval that contains `x`, with its value.
    ///
    /// Looks for the last interval that starts at or before `x` and tests
    /// `x` against its end.
    pub fn find(&self, x: u128) -> (r: Option<(Span, &V)>)
        ensures
            disjoint_keys(self@),
            match r {
                Some((sp, v)) => covering(self@, x) == Some(sp) && self@.contains_key(sp)
                    && sp.contains(x) && *v == self@[sp],
                None => covering(self@, x) is None,
            },
    {
        proof {
            use_type_invariant(self);
            lemma_as_map(self.entries@);
        }
        let n = self.rank(x);
        if n > 0 && x <= self.entries[n - 1].span.hi {
            let e = &self.entries[n - 1];
            proof {
                lemma_covering_unique(self@, e.span, x);
            }
            Some((e.span, &e.value))
        } else {
            assert forall|a: Span| #[trigger] self@.contains_key(a) implies !a.contains(x) by {
                let i = choose|i: int| 0 <= i < self.entries.len() && (#[trigger] self.entries[i]).span == a;
                if a.contains(x) {
                    assert(i < n);
                    if i < n - 1 {
                        assert(self.entries[i].span.hi < self.entries[n - 1].span.lo);
                    }
                }
            }
            None
        }
    }

    /// The value stored under exactly the interval `sp`.
    pub fn get(&self, sp: Span) -> (r: Option<&V>)
        ensures
            disjoint_keys(self@),
            match r {
                Some(v) => self@.contains_key(sp) && *v == self@[sp],
                None => !self@.contains_key(sp),
            },
    {
        proof {
            use_type_invariant(self);
            lemma_as_map(self.entries@);
        }
        let n = self.rank(sp.lo);
        if n > 0 && self.entries[n - 1].span.lo == sp.lo && self.entries[n - 1].span.hi == sp.hi {
            Some(&self.entries[n - 1].value)
        } else {
            proof {
                if self@.contains_key(sp) {
                    let i = choose|i: int| 0 <= i < self.entries.len() && (#[trigger] self.entries[i]).span == sp;
                    assert(i < n);
                    if i < n - 1 {
                        assert(self.entries[i].span.hi < self.entries[n - 1].span.lo);
                    }
                    assert(false);
                }
            }
            None
        }
    }

    /// Where `sp` belongs, if it may be stored: the number of entries that
    /// start at or before its end.
    fn slot(&self, sp: Span) -> (r: Option<usize>)
        ensures
            r is Some == admits(self@, sp),
            disjoint_keys(self@),
            r matches Some(n) ==> {
                &&& n <= self.entries.len()
                &&& forall|j: int| 0 <= j < n ==> (#[trigger] self.entries[j]).span.lo <= sp.hi
                &&& forall|j: int|
                    n <= j < self.entries.len() ==> (#[trigger] self.entries[j]).span.lo > sp.hi
            },
    {
        proof {
            use_type_invariant(self);
            lemma_as_map(self.entries@);
        }
        if sp.lo > sp.hi {
            return None;
        }
        let n = self.rank(sp.hi);
        if n == 0 {
            assert forall|a: Span| #[trigger] self@.contains_key(a) && a != sp implies !a.overlaps(
                sp,
            ) by {
                let i = choose|i: int|
                    0 <= i < self.entries.len() && (#[trigger] self.entries[i]).span == a;
                assert(self.entries[i].span.lo > sp.hi);
            }
            return Some(n);
        }
        let e = &self.entries[n - 1];
        if e.span.hi < sp.lo || (e.span.lo == sp.lo && e.span.hi == sp.hi) {
            assert forall|a: Span| #[trigger] self@.contains_key(a) && a != sp implies !a.overlaps(
                sp,
            ) by {
                let i = choose|i: int|
                    0 <= i < self.entries.len() && (#[trigger] self.entries[i]).span == a;
                if i < n - 1 {
                    assert(self.entries[i].span.hi < self.entries[n - 1].span.lo);
                } else if i >= n {
                    assert(self.entries[i].span.lo > sp.hi);
                }
            }
            Some(n)
        } else {
            assert(self@.contains_key(e.span));
            assert(e.span.overlaps(sp));
            None
        }
    }

    /// Whether `sp` may be stored: it is not empty and overlaps no interval
    /// of the index but itself.
    pub fn admits(&self, sp: Span) -> (r: bool)
        ensures
            r == admits(self@, sp),
            disjoint_keys(self@),
    {
        self.slot(sp).is_some()
    }

    /// Stores `value` under `sp` if the index admits `sp`, in place of what
    /// was stored under `sp` before; otherwise leaves the index as it was.
    pub fn insert(&mut self, sp: Span, value: V) -> (ok: bool)
        ensures
            ok == admits(old(self)@, sp),
            final(self)@ == (if ok {
                old(self)@.insert(sp, value)
            } else {
                old(self)@
            }),
            disjoint_keys(final(self)@),
    {
        proof {
            use_type_invariant(&*self);
            lemma_as_map(self.entries@);
        }
        let n = match self.slot(sp) {
            Some(n) => n,
            None => { return false; },
        };
        let ghost before = self.entries@;
        let mut entries: Vec<Entry<V>> = Vec::new();
        std::mem::swap(&mut entries, &mut self.entries);
        if n > 0 && entries[n - 1].span.lo == sp.lo && entries[n - 1].span.hi == sp.hi {
            entries.set(n - 1, Entry { span: sp, value });
            proof {
                lemma_replaced(before, n - 1, value);
                assert(entries@ =~= before.update(n - 1, Entry { span: sp, value }));
            }
        } else {
            proof {
                if n > 0 {
                    assert(as_map(before).contains_key(before[n - 1].span));
                    assert(before[n - 1].span != sp);
                }
                lemma_inserted(before, n as int, Entry { span: sp, value });
            }
            entries.insert(n, Entry { span: sp, value });
        }
        self.entries = entries;
        true
    }

    /// Whether every interval of `other` may be stored in this index.
    pub fn accepts(&self, other: &IntervalMap<V>) -> (r: bool)
        ensures
            r == admits_all(self@, other@),
    {
        proof {
            use_type_invariant(self);
            use_type_invariant(other);
            lemma_as_map(other.entries@);
        }
        let mut i: usize = 0;
        while i < other.entries.len()
            invariant
                i <= other.entries.len(),
                forall|j: int| 0 <= j < i ==> admits(self@, (#[trigger] other.entries[j]).span),
            decreases other.entries.len() - i,
        {
            if !self.admits(other.entries[i].span) {
                assert(other@.contains_key(other.entries[i as int].span));
                return false;
            }
            i += 1;
        }
        assert forall|sp: Span| #[trigger] other@.contains_key(sp) implies admits(self@, sp) by {
            let j = choose|j: int| 0 <= j < other.entries.len() && (#[trigger] other.entries[j]).span == sp;
            assert(admits(self@, other.entries[j].span));
        }
        true
    }

    /// Takes over every entry of `other`, each in place of what was stored
    /// under the same interval, if the index admits all of them; otherwise
    /// leaves the index as it was.
    pub fn merge(&mut self, other: IntervalMap<V>) -> (ok: bool)
        ensures
            ok == admits_all(old(self)@, other@),
            final(self)@ == (if ok {
                old(self)@.union_prefer_right(other@)
            } else {
                old(self)@
            }),
            disjoint_keys(final(self)@),
    {
        proof {
            use_type_invariant(&*self);
            lemma_as_map(self.entries@);
        }
        if self.accepts(&other) {
            self.absorb(other);
            true
        } else {
            false
        }
    }

    /// Takes over every entry of `other`, each in place of what was stored
    /// under the same interval. The index must admit all of them, which
    /// `accepts` tells.
    pub fn absorb(&mut self, other: IntervalMap<V>)
        requires
            admits_all(old(self)@, other@),
        ensures
            final(self)@ == old(self)@.union_prefer_right(other@),
            disjoint_keys(final(self)@),
    {
        proof {
            use_type_invariant(&*self);
            use_type_invariant(&other);
            lemma_as_map(self.entries@);
            lemma_as_map(other.entries@);
        }
        let ghost start = self@;
        let ghost all = other.entries@;
        let mut rest = other.entries;
        proof {
            assert(all.subrange(all.len() as int, all.len() as int) =~= Seq::<Entry<V>>::empty());
            assert(as_map(Seq::<Entry<V>>::empty()) =~= Map::<Span, V>::empty());
            assert(start.union_prefer_right(Map::<Span, V>::empty()) =~= start);
            assert(all.subrange(0, all.len() as int) =~= all);
        }
        while rest.len() > 0
            invariant
                ordered(all),
                rest.len() <= all.len(),
                rest@ == all.subrange(0, rest.len() as int),
                admits_all(start, as_map(all)),
                disjoint_keys(start),
                disjoint_keys(self@),
                self@ == start.union_prefer_right(
                    as_map(all.subrange(rest.len() as int, all.len() as int)),
                ),
            decreases rest.len(),
        {
            let ghost k = rest.len() - 1;
            let ghost done = all.subrange(k + 1, all.len() as int);
            let ghost cur = self@;
            let e = rest.pop().unwrap();
            proof {
                assert(e == all[k]);
                assert(rest@ =~= all.subrange(0, k));
                lemma_as_map(all);
                lemma_prepended(all, k);
                lemma_as_map(done);
                assert(as_map(all).contains_key(all[k].span));
                assert(admits(start, e.span));
                assert forall|a: Span| #[trigger] cur.contains_key(a) && a != e.span implies !a.overlaps(
                    e.span,
                ) by {
                    if as_map(done).contains_key(a) {
                        let j = choose|j: int| 0 <= j < done.len() && (#[trigger] done[j]).span == a;
                        assert(done[j] == all[k + 1 + j]);
                        assert(all[k].span.hi < all[k + 1 + j].span.lo);
                    } else {
                        assert(start.contains_key(a));
                    }
                }
            }
            let ok = self.insert(e.span, e.value);
            proof {
                let next = all.subrange(k, all.len() as int);
                assert(self@ =~= start.union_prefer_right(as_map(next)));
            }
        }
        proof {
            assert(all.subrange(0, all.len() as int) =~= all);
        }
    }
}

/// The number of keys of `as_map(s)` is the number of entries of `s`.
proof fn lemma_len<V>(s: Seq<Entry<V>>)
    requires
        ordered(s),
    ensures
        as_map(s).dom().finite(),
        as_map(s).len() == s.len(),
    decreases s.len(),
{
    lemma_as_map(s);
    if s.len() == 0 {
        assert(as_map(s) =~= Map::<Span, V>::empty());
    } else {
        let t = s.drop_last();
        let e = s.last();
        lemma_len(t);
        lemma_as_map(t);
        assert(!as_map(t).contains_key(e.span)) by {
            if as_map(t).contains_key(e.span) {
                let i = choose|i: int| 0 <= i < t.len() && (#[trigger] t[i]).span == e.span;
                assert(t[i] == s[i]);
                assert(s[i].span.hi < s[s.len() - 1].span.lo);
            }
        }
        assert(as_map(s) =~= as_map(t).insert(e.span, e.value)) by {
            assert forall|sp: Span| #[trigger] as_map(s).contains_key(sp) implies as_map(t).insert(
                e.span,
                e.value,
            ).contains_key(sp) by {
                let i = choose|i: int| 0 <= i < s.len() && (#[trigger] s[i]).span == sp;
                if i < t.len() {
                    assert(t[i] == s[i]);
                }
            }
            assert forall|sp: Span| #[trigger]
                as_map(t).insert(e.span, e.value).contains_key(sp) implies as_map(s).contains_key(
                sp,
            ) && as_map(s)[sp] == as_map(t).insert(e.span, e.value)[sp] by {
                if sp == e.span {
                    assert(s[s.len() - 1].span == sp);
                } else {
                    let i = choose|i: int| 0 <= i < t.len() && (#[trigger] t[i]).span == sp;
                    assert(t[i] == s[i]);
                    assert(s[i].span == sp);
                }
            }
        }
    }
}

/// Replacing the value of entry `i` is an insert under that entry's interval.
proof fn lemma_replaced<V>(s: Seq<Entry<V>>, i: int, value: V)
    requires
        ordered(s),
        0 <= i < s.len(),
    ensures
        ordered(s.update(i, Entry { span: s[i].span, value })),
        as_map(s.update(i, Entry { span: s[i].span, value })) == as_map(s).insert(s[i].span, value),
{
    let e = Entry { span: s[i].span, value };
    let t = s.update(i, e);
    assert(ordered(t)) by {
        assert forall|a: int, b: int| 0 <= a < b < t.len() implies (#[trigger] t[a]).span.hi < (
        #[trigger] t[b]).span.lo by {
            assert(s[a].span.hi < s[b].span.lo);
        }
        assert forall|a: int| 0 <= a < t.len() implies (#[trigger] t[a]).span.valid() by {
            assert(s[a].span.valid());
        }
    }
    lemma_as_map(s);
    lemma_as_map(t);
    let m = as_map(s).insert(s[i].span, value);
    assert(as_map(t) =~= m) by {
        assert forall|sp: Span| #[trigger] as_map(t).contains_key(sp) implies m.contains_key(sp) by {
            let j = choose|j: int| 0 <= j < t.len() && (#[trigger] t[j]).span == sp;
            assert(s[j].span == sp);
        }
        assert forall|sp: Span| #[trigger] m.contains_key(sp) implies as_map(t).contains_key(sp)
            && as_map(t)[sp] == m[sp] by {
            if sp == s[i].span {
                assert(t[i].span == sp);
            } else {
                let j = choose|j: int| 0 <= j < s.len() && (#[trigger] s[j]).span == sp;
                assert(t[j] == s[j]);
                assert(t[j].span == sp);
            }
        }
    }
}

/// Placing an admitted new interval after the entries that start at or
/// before its end keeps the order and is an insert under that interval.
proof fn lemma_inserted<V>(s: Seq<Entry<V>>, n: int, e: Entry<V>)
    requires
        ordered(s),
        admits(as_map(s), e.span),
        !as_map(s).contains_key(e.span),
        0 <= n <= s.len(),
        forall|j: int| 0 <= j < n ==> (#[trigger] s[j]).span.lo <= e.span.hi,
        forall|j: int| n <= j < s.len() ==> (#[trigger] s[j]).span.lo > e.span.hi,
    ensures
        ordered(s.insert(n, e)),
        as_map(s.insert(n, e)) == as_map(s).insert(e.span, e.value),
{
    let t = s.insert(n, e);
    lemma_as_map(s);
    assert(ordered(t)) by {
        assert forall|a: int| 0 <= a < t.len() implies (#[trigger] t[a]).span.valid() by {
            if a < n {
                assert(t[a] == s[a]);
            } else if a > n {
                assert(t[a] == s[a - 1]);
            }
        }
        assert forall|a: int, b: int| 0 <= a < b < t.len() implies (#[trigger] t[a]).span.hi < (
        #[trigger] t[b]).span.lo by {
            if b < n {
                assert(t[a] == s[a] && t[b] == s[b]);
            } else if b == n {
                assert(t[a] == s[a]);
                assert(as_map(s).contains_key(s[a].span));
                assert(s[a].span != e.span);
                assert(!s[a].span.overlaps(e.span));
            } else if a < n {
                assert(t[a] == s[a] && t[b] == s[b - 1]);
            } else if a == n {
                assert(t[b] == s[b - 1]);
            } else {
                assert(t[a] == s[a - 1] && t[b] == s[b - 1]);
            }
        }
    }
    lemma_as_map(t);
    let m = as_map(s).insert(e.span, e.value);
    assert(as_map(t) =~= m) by {
        assert forall|sp: Span| #[trigger] as_map(t).contains_key(sp) implies m.contains_key(sp) by {
            let j = choose|j: int| 0 <= j < t.len() && (#[trigger] t[j]).span == sp;
            if j < n {
                assert(t[j] == s[j]);
            } else if j > n {
                assert(t[j] == s[j - 1]);
            }
        }
        assert forall|sp: Span| #[trigger] m.contains_key(sp) implies as_map(t).contains_key(sp)
            && as_map(t)[sp] == m[sp] by {
            if sp == e.span {
                assert(t[n].span == sp);
            } else {
                let j = choose|j: int| 0 <= j < s.len() && (#[trigger] s[j]).span == sp;
                if j < n {
                    assert(t[j] == s[j]);
                    assert(t[j].span == sp);
                } else {
                    assert(t[j + 1] == s[j]);
                    assert(t[j + 1].span == sp);
                }
            }
        }
    }
}

/// The map of a tail of an ordered sequence, grown by the entry before it,
/// is the map of the longer tail.
proof fn lemma_prepended<V>(all: Seq<Entry<V>>, k: int)
    requires
        ordered(all),
        0 <= k < all.len(),
    ensures
        ordered(all.subrange(k, all.len() as int)),
        ordered(all.subrange(k + 1, all.len() as int)),
        as_map(all.subrange(k, all.len() as int)) == as_map(
            all.subrange(k + 1, all.len() as int),
        ).insert(all[k].span, all[k].value),
{
    let long = all.subrange(k, all.len() as int);
    let short = all.subrange(k + 1, all.len() as int);
    assert(ordered(long)) by {
        assert forall|a: int, b: int| 0 <= a < b < long.len() implies (#[trigger] long[a]).span.hi < (
        #[trigger] long[b]).span.lo by {
            assert(all[k + a].span.hi < all[k + b].span.lo);
        }
        assert forall|a: int| 0 <= a < long.len() implies (#[trigger] long[a]).span.valid() by {
            assert(all[k + a].span.valid());
        }
    }
    assert(ordered(short)) by {
        assert forall|a: int, b: int| 0 <= a < b < short.len() implies (#[trigger] short[a]).span.hi
            < (#[trigger] short[b]).span.lo by {
            assert(all[k + 1 + a].span.hi < all[k + 1 + b].span.lo);
        }
        assert forall|a: int| 0 <= a < short.len() implies (#[trigger] short[a]).span.valid() by {
            assert(all[k + 1 + a].span.valid());
        }
    }
    lemma_as_map(long);
    lemma_as_map(short);
    let m = as_map(short).insert(all[k].span, all[k].value);
    assert(as_map(long) =~= m) by {
        assert forall|sp: Span| #[trigger] as_map(long).contains_key(sp) implies m.contains_key(sp) by {
            let j = choose|j: int| 0 <= j < long.len() && (#[trigger] long[j]).span == sp;
            if j > 0 {
                assert(short[j - 1] == long[j]);
            }
        }
        assert forall|sp: Span| #[trigger] m.contains_key(sp) implies as_map(long).contains_key(sp)
            && as_map(long)[sp] == m[sp] by {
            if sp == all[k].span {
                assert(long[0].span == sp);
            } else {
                let j = choose|j: int| 0 <= j < short.len() && (#[trigger] short[j]).span == sp;
                assert(long[j + 1] == short[j]);
                assert(long[j + 1].span == sp);
            }
        }
    }
}

} // verus!
