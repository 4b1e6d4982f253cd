//! Ordered tables: finite maps whose entries stand in the order of their keys.
use crate::clock::{lemma_moment_known, Moment};
use crate::text::text_before;
use crate::value::Value;
use vstd::prelude::*;

verus! {

/// A key with a total order.
pub trait Key: Value {
    spec fn less(a: Self::V, b: Self::V) -> bool;

    proof fn irreflexive(a: Self::V)
        ensures
            !Self::less(a, a),
    ;

    proof fn transitive(a: Self::V, b: Self::V, c: Self::V)
        requires
            Self::less(a, b),
            Self::less(b, c),
        ensures
            Self::less(a, c),
    ;

    proof fn total(a: Self::V, b: Self::V)
        ensures
            Self::less(a, b) || a == b || Self::less(b, a),
    ;

    fn before(&self, other: &Self) -> (r: bool)
        ensures
            r == Self::less(self.deep_view(), other.deep_view()),
    ;
}

impl Key for String {
    open spec fn less(a: Seq<char>, b: Seq<char>) -> bool {
        crate::text::text_less(a, b)
    }

    proof fn irreflexive(a: Seq<char>) {
        crate::text::lemma_text_less_irreflexive(a);
    }

    proof fn transitive(a: Seq<char>, b: Seq<char>, c: Seq<char>) {
        crate::text::lemma_text_less_transitive(a, b, c);
    }

    proof fn total(a: Seq<char>, b: Seq<char>) {
        crate::text::lemma_text_less_total(a, b);
    }

    fn before(&self, other: &Self) -> (r: bool) {
        text_before(self.as_str(), other.as_str())
    }
}

impl Key for i32 {
    open spec fn less(a: i32, b: i32) -> bool {
        a < b
    }

    proof fn irreflexive(a: i32) {
    }

    proof fn transitive(a: i32, b: i32, c: i32) {
    }

    proof fn total(a: i32, b: i32) {
    }

    fn before(&self, other: &Self) -> (r: bool) {
        *self < *other
    }
}

impl Key for Moment {
    open spec fn less(a: Moment, b: Moment) -> bool {
        a.d() < b.d() || (a.d() == b.d() && (a.s() < b.s() || (a.s() == b.s() && a.n() < b.n())))
    }

    proof fn irreflexive(a: Moment) {
    }

    proof fn transitive(a: Moment, b: Moment, c: Moment) {
    }

    proof fn total(a: Moment, b: Moment) {
        if a.d() == b.d() && a.s() == b.s() && a.n() == b.n() {
            lemma_moment_known(a, b);
        }
    }

    fn before(&self, other: &Self) -> (r: bool) {
        let (d, e): (i32, i32) = (self.day_number(), other.day_number());
        let (s, t): (u32, u32) = (self.second(), other.second());
        d < e || (d == e && (s < t || (s == t && self.nano() < other.nano())))
    }
}

/// How many leading entries have a key before `k`.
pub open spec fn rank<K: Key, V>(s: Seq<(K::V, V)>, k: K::V) -> nat
    decreases s.len(),
{
    if s.len() > 0 && K::less(s[0].0, k) {
        1 + rank::<K, V>(s.drop_first(), k)
    } else {
        0
    }
}

/// Whether the keys are strictly increasing.
pub open spec fn ordered<K: Key, V>(s: Seq<(K::V, V)>) -> bool {
    forall|i: int, j: int|
        0 <= i < j < s.len() ==> K::less((#[trigger] s[i]).0, (#[trigger] s[j]).0)
}

/// Whether the table has an entry for `k`.
pub open spec fn holds_key<K: Key, V>(s: Seq<(K::V, V)>, k: K::V) -> bool {
    let i = rank::<K, V>(s, k) as int;
    i < s.len() && s[i].0 == k
}

/// The value that the table holds for `k`.
pub open spec fn lookup<K: Key, V>(s: Seq<(K::V, V)>, k: K::V) -> Option<V> {
    let i = rank::<K, V>(s, k) as int;
    if i < s.len() && s[i].0 == k {
        Some(s[i].1)
    } else {
        None
    }
}

/// The table with `v` for `k`, in place of what it held for `k`.
pub open spec fn with<K: Key, V>(s: Seq<(K::V, V)>, k: K::V, v: V) -> Seq<(K::V, V)> {
    let i = rank::<K, V>(s, k) as int;
    if i < s.len() && s[i].0 == k {
        s.update(i, (k, v))
    } else {
        s.insert(i, (k, v))
    }
}

/// The table without an entry for `k`.
pub open spec fn without<K: Key, V>(s: Seq<(K::V, V)>, k: K::V) -> Seq<(K::V, V)> {
    let i = rank::<K, V>(s, k) as int;
    if i < s.len() && s[i].0 == k {
        s.remove(i)
    } else {
        s
    }
}

pub proof fn lemma_rank_bound<K: Key, V>(s: Seq<(K::V, V)>, k: K::V)
    ensures
        rank::<K, V>(s, k) <= s.len(),
        forall|j: int| 0 <= j < rank::<K, V>(s, k) ==> K::less((#[trigger] s[j]).0, k),
        rank::<K, V>(s, k) < s.len() ==> !K::less(s[rank::<K, V>(s, k) as int].0, k),
    decreases s.len(),
{
    if s.len() > 0 && K::less(s[0].0, k) {
        let t = s.drop_first();
        lemma_rank_bound::<K, V>(t, k);
        assert forall|j: int| 0 <= j < rank::<K, V>(s, k) implies K::less(
            (#[trigger] s[j]).0,
            k,
        ) by {
            if j > 0 {
                assert(t[j - 1] == s[j]);
            }
        }
    }
}

pub proof fn lemma_rank_is<K: Key, V>(s: Seq<(K::V, V)>, k: K::V, i: int)
    requires
        0 <= i <= s.len(),
        forall|j: int| 0 <= j < i ==> K::less((#[trigger] s[j]).0, k),
        i < s.len() ==> !K::less(s[i].0, k),
    ensures
        rank::<K, V>(s, k) == i,
    decreases s.len(),
{
    if i > 0 {
        let t = s.drop_first();
        assert(K::less(s[0].0, k));
        assert forall|j: int| 0 <= j < i - 1 implies K::less((#[trigger] t[j]).0, k) by {
            assert(t[j] == s[j + 1]);
        }
        lemma_rank_is::<K, V>(t, k, i - 1);
    }
}

/// In an ordered table the entry at `i` is the one found for its key.
pub proof fn lemma_lookup_at<K: Key, V>(s: Seq<(K::V, V)>, i: int)
    requires
        ordered::<K, V>(s),
        0 <= i < s.len(),
    ensures
        rank::<K, V>(s, s[i].0) == i,
        lookup::<K, V>(s, s[i].0) == Some(s[i].1),
        holds_key::<K, V>(s, s[i].0),
{
    K::irreflexive(s[i].0);
    lemma_rank_is::<K, V>(s, s[i].0, i);
}

/// Storing keeps the order, and finds what was stored.
pub proof fn lemma_with<K: Key, V>(s: Seq<(K::V, V)>, k: K::V, v: V)
    requires
        ordered::<K, V>(s),
    ensures
        ordered::<K, V>(with::<K, V>(s, k, v)),
        lookup::<K, V>(with::<K, V>(s, k, v), k) == Some(v),
        holds_key::<K, V>(with::<K, V>(s, k, v), k),
{
    let r = rank::<K, V>(s, k) as int;
    lemma_rank_bound::<K, V>(s, k);
    let t = with::<K, V>(s, k, v);
    if r < s.len() && s[r].0 != k {
        K::total(s[r].0, k);
    }
    assert forall|i: int, j: int| 0 <= i < j < t.len() implies K::less(
        (#[trigger] t[i]).0,
        (#[trigger] t[j]).0,
    ) by {
        if r < s.len() && s[r].0 == k {
            assert(t[i].0 == s[i].0 && t[j].0 == s[j].0);
        } else {
            let a = if i <= r { i } else { i - 1 };
            let b = if j <= r { j } else { j - 1 };
            if i == r {
                assert(t[j] == s[j - 1]);
                if j - 1 > r {
                    assert(K::less(s[r].0, s[j - 1].0));
                    K::transitive(k, s[r].0, s[j - 1].0);
                }
            } else if j == r {
                assert(t[i] == s[i]);
            } else {
                assert(t[i] == s[a] && t[j] == s[b]);
            }
        }
    }
    assert(t[r] == (k, v));
    lemma_lookup_at::<K, V>(t, r);
}

/// Storing leaves what other keys hold.
pub proof fn lemma_with_other<K: Key, V>(s: Seq<(K::V, V)>, k: K::V, v: V, j: K::V)
    requires
        ordered::<K, V>(s),
        j != k,
    ensures
        lookup::<K, V>(with::<K, V>(s, k, v), j) == lookup::<K, V>(s, j),
        holds_key::<K, V>(with::<K, V>(s, k, v), j) == holds_key::<K, V>(s, j),
{
    let r = rank::<K, V>(s, k) as int;
    let q = rank::<K, V>(s, j) as int;
    let t = with::<K, V>(s, k, v);
    lemma_rank_bound::<K, V>(s, k);
    lemma_rank_bound::<K, V>(s, j);
    lemma_with::<K, V>(s, k, v);
    K::total(j, k);
    K::irreflexive(j);
    K::irreflexive(k);
    if r < s.len() && s[r].0 == k {
        assert forall|i: int| 0 <= i < q implies K::less((#[trigger] t[i]).0, j) by {
            assert(t[i].0 == s[i].0);
        }
        lemma_rank_is::<K, V>(t, j, q);
    } else if K::less(j, k) {
        if q > r {
            assert(q <= s.len());
            assert(K::less(s[r].0, j));
            K::transitive(s[r].0, j, k);
            assert(false);
        }
        if q == r && q < s.len() {
            if s[q].0 == j {
                assert(false);
            }
        }
        assert forall|i: int| 0 <= i < q implies K::less((#[trigger] t[i]).0, j) by {
            assert(t[i] == s[i]);
        }
        if q < r {
            assert(t[q] == s[q]);
        } else {
            assert(t[q] == (k, v));
            if K::less(k, j) {
                K::transitive(j, k, j);
            }
        }
        lemma_rank_is::<K, V>(t, j, q);
    } else {
        assert(K::less(k, j));
        if q < r {
            assert(K::less(s[q].0, k));
            K::transitive(s[q].0, k, j);
            assert(false);
        }
        assert forall|i: int| 0 <= i < q + 1 implies K::less((#[trigger] t[i]).0, j) by {
            if i < r {
                assert(t[i] == s[i]);
            } else if i == r {
                assert(t[i] == (k, v));
            } else {
                assert(t[i] == s[i - 1]);
            }
        }
        if q < s.len() {
            assert(t[q + 1] == s[q]);
        }
        lemma_rank_is::<K, V>(t, j, q + 1);
    }
}

/// Whether a table holds a value at a key, and at every other key what another table
/// holds there.
pub open spec fn changed_at<K: Key, V>(
    before: Seq<(K::V, V)>,
    after: Seq<(K::V, V)>,
    k: K::V,
    v: V,
) -> bool {
    &&& lookup::<K, V>(after, k) == Some(v)
    &&& forall|j: K::V| j != k ==> #[trigger] lookup::<K, V>(after, j) == lookup::<K, V>(before, j)
}

/// Putting a value at a key changes nothing at the others.
pub proof fn lemma_changed_at<K: Key, V>(s: Seq<(K::V, V)>, k: K::V, v: V)
    requires
        ordered::<K, V>(s),
    ensures
        ordered::<K, V>(with::<K, V>(s, k, v)),
        changed_at::<K, V>(s, with::<K, V>(s, k, v), k, v),
{
    lemma_with::<K, V>(s, k, v);
    assert forall|j: K::V| j != k implies #[trigger] lookup::<K, V>(with::<K, V>(s, k, v), j)
        == lookup::<K, V>(s, j) by {
        lemma_with_other::<K, V>(s, k, v, j);
    }
}

/// A finite map kept in the order of its keys.
pub struct Table<K: Key, V: Value> {
    entries: Vec<(K, V)>,
}

impl<K: Key, V: Value> DeepView for Table<K, V> {
    type V = Seq<(K::V, V::V)>;

    closed spec fn deep_view(&self) -> Seq<(K::V, V::V)> {
        self.entries.deep_view()
    }
}

impl<K: Key, V: Value> View for Table<K, V> {
    type V = Seq<(K::V, V::V)>;

    open spec fn view(&self) -> Seq<(K::V, V::V)> {
        self.deep_view()
    }
}

impl<K: Key, V: Value> Table<K, V> {
    #[verifier::type_invariant]
    spec fn inv(self) -> bool {
        ordered::<K, V::V>(self.entries.deep_view())
    }

    /// A table without entries.
    pub fn new() -> (r: Self)
        ensures
            r@ == Seq::<(K::V, V::V)>::empty(),
    {
        let r = Table { entries: Vec::new() };
        assert(r.entries.deep_view() =~= Seq::<(K::V, V::V)>::empty());
        r
    }

    /// What every table keeps: its keys are strictly increasing.
    pub fn order_known(&self)
        ensures
            ordered::<K, V::V>(self@),
    {
        proof {
            use_type_invariant(self);
        }
    }

    /// How many entries there are.
    pub fn len(&self) -> (r: usize)
        ensures
            r == self@.len(),
    {
        self.entries.len()
    }

    /// Whether there is no entry.
    pub fn is_empty(&self) -> (r: bool)
        ensures
            r == (self@.len() == 0),
    {
        self.entries.len() == 0
    }

    /// The key of the entry at `i`.
    pub fn key_at(&self, i: usize) -> (r: &K)
        requires
            i < self@.len(),
        ensures
            r.deep_view() == self@[i as int].0,
    {
        &self.entries[i].0
    }

    /// The value of the entry at `i`.
    pub fn value_at(&self, i: usize) -> (r: &V)
        requires
            i < self@.len(),
        ensures
            r.deep_view() == self@[i as int].1,
    {
        &self.entries[i].1
    }

    fn find(&self, k: &K) -> (r: usize)
        ensures
            r == rank::<K, V::V>(self@, k.deep_view()),
            r <= self@.len(),
    {
        let mut i: usize = 0;
        while i < self.entries.len() && self.entries[i].0.before(k)
            invariant
                i <= self@.len(),
                self@.len() == self.entries@.len(),
                forall|j: int| 0 <= j < i ==> K::less((#[trigger] self@[j]).0, k.deep_view()),
            decreases self.entries@.len() - i,
        {
            i = i + 1;
        }
        proof {
            lemma_rank_is::<K, V::V>(self@, k.deep_view(), i as int);
        }
        i
    }

    /// The value held for `k`.
    pub fn get(&self, k: &K) -> (r: Option<&V>)
        ensures
            match r {
                Some(v) => lookup::<K, V::V>(self@, k.deep_view()) == Some(v.deep_view()),
                None => lookup::<K, V::V>(self@, k.deep_view()) is None,
            },
            r is Some == holds_key::<K, V::V>(self@, k.deep_view()),
    {
        let i: usize = self.find(k);
        if i < self.entries.len() && self.entries[i].0.same(k) {
            Some(&self.entries[i].1)
        } else {
            None
        }
    }

    /// Whether there is an entry for `k`.
    pub fn contains(&self, k: &K) -> (r: bool)
        ensures
            r == holds_key::<K, V::V>(self@, k.deep_view()),
    {
        let i: usize = self.find(k);
        i < self.entries.len() && self.entries[i].0.same(k)
    }

    /// Stores `v` for `k`.
    pub fn put(&mut self, k: K, v: V)
        ensures
            final(self)@ == with::<K, V::V>(old(self)@, k.deep_view(), v.deep_view()),
    {
        proof {
            use_type_invariant(&*self);
        }
        let i: usize = self.find(&k);
        let ghost before = self@;
        let ghost kv = k.deep_view();
        let ghost vv = v.deep_view();
        proof {
            lemma_with::<K, V::V>(before, kv, vv);
        }
        let mut entries: Vec<(K, V)> = Vec::new();
        std::mem::swap(&mut entries, &mut self.entries);
        let ghost e0 = entries;
        if i < entries.len() && entries[i].0.same(&k) {
            entries.set(i, (k, v));
            assert(entries.deep_view() =~= with::<K, V::V>(before, kv, vv));
        } else {
            entries.insert(i, (k, v));
            assert(entries.deep_view() =~= with::<K, V::V>(before, kv, vv));
        }
        self.entries = entries;
    }

    /// Drops the entry for `k`.
    pub fn drop_key(&mut self, k: &K)
        ensures
            final(self)@ == without::<K, V::V>(old(self)@, k.deep_view()),
    {
        proof {
            use_type_invariant(&*self);
        }
        let i: usize = self.find(k);
        let ghost before = self@;
        if i < self.entries.len() && self.entries[i].0.same(k) {
            let mut entries: Vec<(K, V)> = Vec::new();
            std::mem::swap(&mut entries, &mut self.entries);
            let _ = entries.remove(i);
            proof {
                assert(entries.deep_view() =~= without::<K, V::V>(before, k.deep_view()));
                let t = entries.deep_view();
                assert forall|a: int, b: int| 0 <= a < b < t.len() implies K::less(
                    (#[trigger] t[a]).0,
                    (#[trigger] t[b]).0,
                ) by {
                    let x = if a < i { a } else { a + 1 };
                    let y = if b < i { b } else { b + 1 };
                    assert(t[a] == before[x] && t[b] == before[y]);
                }
            }
            self.entries = entries;
        }
    }
}

impl<K: Key, V: Value> Value for Table<K, V> {
    fn dup(&self) -> (r: Self) {
        proof {
            use_type_invariant(self);
        }
        let mut entries: Vec<(K, V)> = Vec::new();
        let mut i: usize = 0;
        while i < self.entries.len()
            invariant
                i <= self.entries@.len(),
                entries@.len() == i,
                forall|j: int|
                    0 <= j < i ==> (#[trigger] entries@[j]).deep_view()
                        == self.entries@[j].deep_view(),
            decreases self.entries@.len() - i,
        {
            entries.push((self.entries[i].0.dup(), self.entries[i].1.dup()));
            i = i + 1;
        }
        assert(entries.deep_view() =~= self.entries.deep_view());
        Table { entries }
    }

    fn same(&self, other: &Self) -> (r: bool) {
        if self.entries.len() != other.entries.len() {
            assert(self.deep_view().len() != other.deep_view().len());
            return false;
        }
        let mut i: usize = 0;
        while i < self.entries.len()
            invariant
                i <= self.entries@.len(),
                self.entries@.len() == other.entries@.len(),
                forall|j: int|
                    0 <= j < i ==> (#[trigger] self.entries@[j]).deep_view()
                        == other.entries@[j].deep_view(),
            decreases self.entries@.len() - i,
        {
            if !self.entries[i].0.same(&other.entries[i].0) || !self.entries[i].1.same(
                &other.entries[i].1,
            ) {
                assert(self.entries.deep_view()[i as int] != other.entries.deep_view()[i as int]);
                return false;
            }
            i = i + 1;
        }
        assert(self.entries.deep_view() =~= other.entries.deep_view());
        true
    }
}

} // verus!
