//! Keyed records kept in insertion order: the contract's persistent maps
//! and sets. Removal moves the last entry into the freed slot, as unordered
//! on-chain collections do.
use vstd::prelude::*;

verus! {

/// Keys: values with an exact equality test and an exact copy.
pub trait BookKey: View + Sized {
    fn same(&self, other: &Self) -> (r: bool)
        ensures
            r == (self@ == other@),
    ;

    fn dup_key(&self) -> (r: Self)
        ensures
            r@ == self@,
    ;
}

/// Values that can be copied out: the copy is equivalent to its source
/// (equal, for values without vectors).
pub trait Dup: Sized {
    spec fn eqv(&self, other: &Self) -> bool;

    fn dup(&self) -> (r: Self)
        ensures
            r.eqv(self),
    ;
}

impl BookKey for String {
    fn same(&self, other: &Self) -> (r: bool) {
        *self == *other
    }

    fn dup_key(&self) -> (r: Self) {
        self.clone()
    }
}

impl BookKey for u32 {
    fn same(&self, other: &Self) -> (r: bool) {
        *self == *other
    }

    fn dup_key(&self) -> (r: Self) {
        *self
    }
}

impl BookKey for Vec<u8> {
    fn same(&self, other: &Self) -> (r: bool) {
        if self.len() != other.len() {
            return false;
        }
        let mut i: usize = 0;
        while i < self.len()
            invariant
                self.len() == other.len(),
                i <= self.len(),
                forall|j: int| 0 <= j < i ==> self@[j] == other@[j],
            decreases self.len() - i,
        {
            if self[i] != other[i] {
                return false;
            }
            i = i + 1;
        }
        assert(self@ =~= other@);
        true
    }

    fn dup_key(&self) -> (r: Self) {
        let mut out: Vec<u8> = Vec::new();
        let mut i: usize = 0;
        while i < self.len()
            invariant
                i <= self.len(),
                out@ =~= self@.subrange(0, i as int),
            decreases self.len() - i,
        {
            out.push(self[i]);
            i = i + 1;
        }
        assert(out@ =~= self@);
        out
    }
}

impl Dup for () {
    open spec fn eqv(&self, other: &Self) -> bool {
        *self == *other
    }

    fn dup(&self) -> (r: Self) {
        ()
    }
}

impl Dup for u128 {
    open spec fn eqv(&self, other: &Self) -> bool {
        *self == *other
    }

    fn dup(&self) -> (r: Self) {
        *self
    }
}

impl Dup for u32 {
    open spec fn eqv(&self, other: &Self) -> bool {
        *self == *other
    }

    fn dup(&self) -> (r: Self) {
        *self
    }
}

impl Dup for usize {
    open spec fn eqv(&self, other: &Self) -> bool {
        *self == *other
    }

    fn dup(&self) -> (r: Self) {
        *self
    }
}

/// Records keyed by `K`, in insertion order.
pub struct Book<K, V> {
    keys: Vec<K>,
    vals: Vec<V>,
}

impl<K: BookKey, V: Dup> Book<K, V> {
    /// The keys in order.
    pub closed spec fn key_seq(&self) -> Seq<K::V> {
        self.keys@.map_values(|k: K| k@)
    }

    /// The values in order.
    pub closed spec fn val_seq(&self) -> Seq<V> {
        self.vals@
    }

    /// Well-formed: one value per key, no key twice.
    pub closed spec fn wf(&self) -> bool {
        &&& self.keys.len() == self.vals.len()
        &&& forall|i: int, j: int|
            0 <= i < self.keys.len() && 0 <= j < self.keys.len() && i != j
                ==> #[trigger] self.keys@[i]@ != #[trigger] self.keys@[j]@
    }

    pub open spec fn has(&self, k: K::V) -> bool {
        self.key_seq().contains(k)
    }

    /// The position of a key that is present.
    pub open spec fn pos(&self, k: K::V) -> int {
        self.key_seq().index_of(k)
    }

    /// The map from keys to values.
    pub open spec fn map(&self) -> Map<K::V, V> {
        Map::new(|k: K::V| self.has(k), |k: K::V| self.val_seq()[self.pos(k)])
    }

    pub open spec fn len_spec(&self) -> nat {
        self.key_seq().len()
    }

    proof fn lemma_views(&self)
        requires
            self.wf(),
        ensures
            self.key_seq().len() == self.val_seq().len(),
            self.key_seq().no_duplicates(),
            forall|i: int| 0 <= i < self.keys.len() ==> #[trigger] self.key_seq()[i] == self.keys@[i]@,
    {
        assert forall|i: int, j: int|
            0 <= i < self.key_seq().len() && 0 <= j < self.key_seq().len() && i != j
            implies self.key_seq()[i] != self.key_seq()[j] by {
            assert(self.keys@[i]@ != self.keys@[j]@);
        }
    }

    /// The key at a position is found at that position.
    pub proof fn lemma_pos(&self, i: int)
        requires
            self.wf(),
            0 <= i < self.len_spec(),
        ensures
            self.has(self.key_seq()[i]),
            self.pos(self.key_seq()[i]) == i,
            self.map()[self.key_seq()[i]] == self.val_seq()[i],
    {
        self.lemma_views();
        let k = self.key_seq()[i];
        self.key_seq().index_of_first_ensures(k);
        let p = self.key_seq().index_of(k);
        if p != i {
            assert(self.key_seq()[p] == k);
        }
    }

    /// A present key sits at a position of the values, and its value is the
    /// value there.
    pub proof fn lemma_has(&self, k: K::V)
        requires
            self.wf(),
            self.has(k),
        ensures
            0 <= self.pos(k) < self.val_seq().len(),
            self.map()[k] == self.val_seq()[self.pos(k)],
    {
        self.lemma_views();
        self.key_seq().index_of_first_ensures(k);
    }

    /// The keys present form a finite set with one element per entry.
    pub proof fn lemma_len(&self)
        requires
            self.wf(),
        ensures
            self.map().dom().finite(),
            self.map().dom() == self.key_seq().to_set(),
            self.map().dom().len() == self.len_spec(),
    {
        self.lemma_views();
        assert(self.map().dom() =~= self.key_seq().to_set());
        vstd::seq_lib::seq_to_set_is_finite(self.key_seq());
        self.key_seq().unique_seq_to_set();
    }

    /// An empty book.
    pub fn new() -> (r: Self)
        ensures
            r.wf(),
            r.key_seq() == Seq::<K::V>::empty(),
            r.val_seq() == Seq::<V>::empty(),
            r.map() == Map::<K::V, V>::empty(),
    {
        let r = Book { keys: Vec::new(), vals: Vec::new() };
        assert(r.key_seq() =~= Seq::<K::V>::empty());
        assert(r.map() =~= Map::<K::V, V>::empty());
        r
    }

    /// Number of entries.
    pub fn len(&self) -> (r: usize)
        requires
            self.wf(),
        ensures
            r == self.len_spec(),
            r == self.val_seq().len(),
    {
        self.keys.len()
    }

    /// Position of `k`, if present.
    pub fn find(&self, k: &K) -> (r: Option<usize>)
        requires
            self.wf(),
        ensures
            match r {
                Some(i) => self.has(k@) && i == self.pos(k@) && i < self.len_spec()
                    && self.key_seq()[i as int] == k@,
                None => !self.has(k@),
            },
    {
        proof { self.lemma_views(); }
        let mut i: usize = 0;
        while i < self.keys.len()
            invariant
                self.wf(),
                i <= self.keys.len(),
                self.key_seq().len() == self.keys.len(),
                forall|j: int| 0 <= j < self.keys.len() ==> #[trigger] self.key_seq()[j] == self.keys@[j]@,
                forall|j: int| 0 <= j < i ==> self.key_seq()[j] != k@,
            decreases self.keys.len() - i,
        {
            if self.keys[i].same(k) {
                proof {
                    assert(self.key_seq()[i as int] == k@);
                    self.key_seq().index_of_first_ensures(k@);
                    assert(self.has(k@));
                    let p = self.pos(k@);
                    assert(self.key_seq().no_duplicates());
                    if p != i {
                        assert(self.key_seq()[p] == k@);
                    }
                }
                return Some(i);
            }
            i = i + 1;
        }
        proof {
            if self.has(k@) {
                let p = self.key_seq().index_of(k@);
                assert(self.key_seq()[p] == k@);
            }
        }
        None
    }

    /// Whether `k` is present.
    pub fn contains(&self, k: &K) -> (r: bool)
        requires
            self.wf(),
        ensures
            r == self.map().dom().contains(k@),
            r == self.has(k@),
    {
        match self.find(k) {
            Some(_) => true,
            None => false,
        }
    }

    /// The value at `k`, if present.
    pub fn get(&self, k: &K) -> (r: Option<V>)
        requires
            self.wf(),
        ensures
            match r {
                Some(v) => self.map().dom().contains(k@) && v.eqv(&self.map()[k@]),
                None => !self.map().dom().contains(k@),
            },
    {
        match self.find(k) {
            Some(i) => Some(self.vals[i].dup()),
            None => None,
        }
    }

    /// The key at position `i`.
    pub fn key_at(&self, i: usize) -> (r: K)
        requires
            self.wf(),
            i < self.len_spec(),
        ensures
            r@ == self.key_seq()[i as int],
    {
        proof { self.lemma_views(); }
        self.keys[i].dup_key()
    }

    /// The keys in order.
    pub fn key_list(&self) -> (r: Vec<K>)
        requires
            self.wf(),
        ensures
            r@.map_values(|k: K| k@) == self.key_seq(),
    {
        let mut out: Vec<K> = Vec::new();
        let mut i: usize = 0;
        while i < self.keys.len()
            invariant
                self.wf(),
                i <= self.keys.len(),
                self.keys.len() == self.len_spec(),
                out@.map_values(|k: K| k@) == self.key_seq().subrange(0, i as int),
            decreases self.keys.len() - i,
        {
            let k = self.key_at(i);
            let ghost prev = out@;
            let ghost kv = k@;
            out.push(k);
            proof {
                let a = out@.map_values(|k: K| k@);
                let b = self.key_seq().subrange(0, i + 1);
                assert(prev.map_values(|k: K| k@).len() == prev.len());
                assert(prev.len() == i);
                assert(out@.len() == i + 1);
                assert(a.len() == out@.len());
                assert(self.key_seq().len() == self.keys@.len());
                assert(b.len() == i + 1);
                assert forall|j: int| 0 <= j < a.len() implies a[j] == b[j] by {
                    if j < i {
                        assert(out@[j] == prev[j]);
                        assert(prev.map_values(|k: K| k@)[j] == self.key_seq().subrange(0, i as int)[j]);
                    } else {
                        assert(a[j] == kv);
                    }
                }
                assert(a =~= b);
            }
            i = i + 1;
        }
        proof {
            assert(self.key_seq().subrange(0, i as int) =~= self.key_seq());
        }
        out
    }

    /// The value at position `i`.
    pub fn val_at(&self, i: usize) -> (r: V)
        requires
            self.wf(),
            i < self.len_spec(),
        ensures
            r.eqv(&self.val_seq()[i as int]),
    {
        proof { self.lemma_views(); }
        self.vals[i].dup()
    }

    /// Replaces the value at position `i`.
    pub fn update_at(&mut self, i: usize, v: V)
        requires
            old(self).wf(),
            i < old(self).len_spec(),
        ensures
            final(self).wf(),
            final(self).key_seq() == old(self).key_seq(),
            final(self).val_seq() == old(self).val_seq().update(i as int, v),
            final(self).map() == old(self).map().insert(old(self).key_seq()[i as int], v),
    {
        proof { self.lemma_views(); }
        let ghost k = self.key_seq()[i as int];
        self.vals.set(i, v);
        proof {
            assert(self.key_seq() =~= old(self).key_seq());
            old(self).key_seq().index_of_first_ensures(k);
            assert(old(self).key_seq()[i as int] == k);
            let p = old(self).key_seq().index_of(k);
            if p != i {
                assert(old(self).key_seq()[p] == k);
            }
            assert forall|q: K::V| #![auto] self.has(q) implies self.val_seq()[self.pos(q)]
                == old(self).map().insert(k, v)[q] by {
                old(self).key_seq().index_of_first_ensures(q);
            }
            assert(self.map() =~= old(self).map().insert(k, v));
        }
    }

    /// Sets `k` to `v`: in place when present, appended otherwise.
    pub fn insert(&mut self, k: K, v: V)
        requires
            old(self).wf(),
        ensures
            final(self).wf(),
            final(self).map() == old(self).map().insert(k@, v),
            old(self).has(k@) ==> final(self).key_seq() == old(self).key_seq()
                && final(self).val_seq() == old(self).val_seq().update(old(self).pos(k@), v),
            !old(self).has(k@) ==> final(self).key_seq() == old(self).key_seq().push(k@)
                && final(self).val_seq() == old(self).val_seq().push(v),
    {
        proof { self.lemma_views(); }
        let ghost old_keys = self.key_seq();
        match self.find(&k) {
            Some(i) => {
                self.vals.set(i, v);
                proof {
                    assert(self.key_seq() =~= old_keys);
                    assert(self.map() =~= old(self).map().insert(k@, v));
                }
            },
            None => {
                self.keys.push(k);
                self.vals.push(v);
                proof {
                    assert(self.key_seq() =~= old_keys.push(k@));
                    assert forall|i: int, j: int|
                        0 <= i < self.keys.len() && 0 <= j < self.keys.len() && i != j
                        implies #[trigger] self.keys@[i]@ != #[trigger] self.keys@[j]@ by {
                        if i < old_keys.len() && j < old_keys.len() {
                            assert(old(self).keys@[i]@ != old(self).keys@[j]@);
                        } else if i < old_keys.len() {
                            assert(old_keys[i] == self.keys@[i]@);
                            assert(old_keys.contains(self.keys@[i]@));
                        } else {
                            assert(old_keys[j] == self.keys@[j]@);
                            assert(old_keys.contains(self.keys@[j]@));
                        }
                    }
                    self.lemma_views();
                    assert forall|q: K::V| self.has(q) implies self.val_seq()[self.pos(q)]
                        == old(self).map().insert(k@, v)[q] by {
                        let p = self.pos(q);
                        self.key_seq().index_of_first_ensures(q);
                        if q == k@ {
                            if p != old_keys.len() {
                                assert(self.key_seq()[p] == k@);
                                assert(old_keys.contains(k@));
                            }
                        } else {
                            assert(old_keys.contains(q)) by {
                                assert(self.key_seq()[p] == q);
                                assert(p < old_keys.len());
                                assert(old_keys[p] == q);
                            }
                            old_keys.index_of_first_ensures(q);
                            let p0 = old_keys.index_of(q);
                            assert(self.key_seq()[p0] == q);
                            assert(p0 == p);
                        }
                    }
                    assert forall|q: K::V| #![auto] self.has(q) <==> (old(self).has(q) || q == k@) by {
                        if old(self).has(q) {
                            let p = old_keys.index_of(q);
                            old_keys.index_of_first_ensures(q);
                            assert(self.key_seq()[p] == q);
                        }
                        if q == k@ {
                            assert(self.key_seq()[old_keys.len() as int] == q);
                        }
                        if self.has(q) && q != k@ {
                            let p = self.key_seq().index_of(q);
                            self.key_seq().index_of_first_ensures(q);
                            assert(p < old_keys.len());
                            assert(old_keys[p] == q);
                        }
                    }
                    assert(self.map() =~= old(self).map().insert(k@, v));
                }
            },
        }
    }

    /// Removes `k`, moving the last entry into its slot.
    pub fn remove(&mut self, k: &K) -> (r: Option<V>)
        requires
            old(self).wf(),
        ensures
            final(self).wf(),
            final(self).map() == old(self).map().remove(k@),
            match r {
                Some(v) => old(self).map().dom().contains(k@) && old(self).map()[k@] == v,
                None => !old(self).map().dom().contains(k@) && *final(self) == *old(self),
            },
            old(self).has(k@) ==> final(self).len_spec() + 1 == old(self).len_spec(),
            old(self).has(k@) ==> final(self).val_seq()
                == old(self).val_seq().update(old(self).pos(k@), old(self).val_seq().last()).drop_last(),
    {
        proof { self.lemma_views(); }
        match self.find(k) {
            None => None,
            Some(i) => {
                let ghost ks = self.key_seq();
                let ghost vs = self.val_seq();
                let ghost n = ks.len();
                let key = self.keys.swap_remove(i);
                let v = self.vals.swap_remove(i);
                proof {
                    assert(key@ == k@);
                    assert forall|a: int, b: int|
                        0 <= a < self.keys.len() && 0 <= b < self.keys.len() && a != b
                        implies #[trigger] self.keys@[a]@ != #[trigger] self.keys@[b]@ by {
                        let oa = if a == i { n - 1 } else { a };
                        let ob = if b == i { n - 1 } else { b };
                        assert(self.keys@[a] == old(self).keys@[oa]);
                        assert(self.keys@[b] == old(self).keys@[ob]);
                        assert(old(self).keys@[oa]@ != old(self).keys@[ob]@);
                    }
                    self.lemma_views();
                    assert forall|q: K::V| #![auto] self.has(q) <==> old(self).map().remove(k@).dom().contains(q) by {
                        if self.has(q) {
                            let p = self.key_seq().index_of(q);
                            self.key_seq().index_of_first_ensures(q);
                            let op = if p == i { n - 1 } else { p };
                            assert(self.keys@[p] == old(self).keys@[op]);
                            assert(ks[op] == q);
                            assert(ks.contains(q));
                            if q == k@ {
                                assert(ks[i as int] == k@);
                                assert(op != i);
                            }
                        }
                        if old(self).map().remove(k@).dom().contains(q) {
                            let op = ks.index_of(q);
                            ks.index_of_first_ensures(q);
                            assert(op != i);
                            let p = if op == n - 1 { i as int } else { op };
                            assert(self.keys@[p] == old(self).keys@[op]);
                            assert(self.key_seq()[p] == q);
                        }
                    }
                    assert forall|q: K::V| self.has(q) implies self.val_seq()[self.pos(q)]
                        == old(self).map()[q] by {
                        let p = self.key_seq().index_of(q);
                        self.key_seq().index_of_first_ensures(q);
                        let op = if p == i { n - 1 } else { p };
                        assert(self.keys@[p] == old(self).keys@[op]);
                        assert(ks[op] == q);
                        ks.index_of_first_ensures(q);
                        let op2 = ks.index_of(q);
                        assert(ks[op2] == q);
                        assert(op2 == op);
                        assert(self.vals@[p] == old(self).vals@[op]);
                    }
                    assert(self.map() =~= old(self).map().remove(k@));
                }
                Some(v)
            },
        }
    }
}

} // verus!
