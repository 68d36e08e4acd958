//! The list of accounts with a pledge, for liquidators to scan.
use vstd::prelude::*;
use crate::error::ContractError;
use crate::state::{OinStake, Vaults};
use crate::types::Position;

verus! {

/// The names of a list of accounts.
pub open spec fn names(v: Seq<String>) -> Seq<Seq<char>> {
    v.map_values(|s: String| s@)
}

/// Whether `id` is on the list.
pub open spec fn listed(v: Vaults, id: Seq<char>) -> bool {
    names(v.unsorted_vaults@).contains(id)
}

/// The list is orderly: no account twice, and the index map gives each
/// listed account its own position. (The map may keep entries for
/// accounts that left the list.)
pub open spec fn vaults_wf(v: Vaults) -> bool {
    let n = names(v.unsorted_vaults@);
    let m = v.account_to_index.map();
    &&& n.no_duplicates()
    &&& forall|i: int| 0 <= i < n.len() ==> #[trigger] m.dom().contains(n[i]) && m[n[i]] == i
}

/// `new` is `old` with `id` appended at the end.
pub open spec fn appended(old: Vaults, new: Vaults, id: Seq<char>) -> bool {
    &&& names(new.unsorted_vaults@) == names(old.unsorted_vaults@).push(id)
    &&& new.account_to_index.map() == old.account_to_index.map().insert(id, old.unsorted_vaults@.len() as usize)
}

/// `new` is `old` with the slot recorded for `id` taken by the last account.
pub open spec fn swap_removed(old: Vaults, new: Vaults, id: Seq<char>) -> bool {
    let m = old.account_to_index.map();
    let v = names(old.unsorted_vaults@);
    &&& names(new.unsorted_vaults@) == v.update(m[id] as int, v.last()).drop_last()
    &&& new.account_to_index.map() == m.insert(v.last(), m[id])
}

/// Appending an account that is not listed keeps the list orderly and
/// adds exactly that account to it.
pub proof fn lemma_appended(old: Vaults, new: Vaults, id: Seq<char>)
    requires
        vaults_wf(old),
        !listed(old, id),
        appended(old, new, id),
        old.unsorted_vaults@.len() <= usize::MAX,
    ensures
        vaults_wf(new),
        listed(new, id),
        names(new.unsorted_vaults@).to_set() == names(old.unsorted_vaults@).to_set().insert(id),
{
    let n0 = names(old.unsorted_vaults@);
    let n1 = names(new.unsorted_vaults@);
    let m1 = new.account_to_index.map();
    let m0 = old.account_to_index.map();
    assert(n1[n0.len() as int] == id);
    assert(n0.len() == old.unsorted_vaults@.len());
    assert(n1.len() == new.unsorted_vaults@.len());
    assert forall|i: int| 0 <= i < n1.len() implies #[trigger] m1.dom().contains(n1[i]) && m1[n1[i]] == i by {
        if i < n0.len() {
            assert(n1[i] == n0[i]);
            assert(n0.contains(n0[i]));
            assert(m0.dom().contains(n0[i]));
        } else {
            assert(i == n0.len());
        }
    }
    assert forall|i: int, j: int| 0 <= i < j < n1.len() implies n1[i] != n1[j] by {
        if j == n0.len() {
            assert(n1[i] == n0[i]);
            assert(n0.contains(n0[i]));
        } else {
            assert(n1[i] == n0[i] && n1[j] == n0[j]);
        }
    }
    assert(n1.to_set() =~= n0.to_set().insert(id)) by {
        assert forall|x: Seq<char>| n1.contains(x) implies n0.contains(x) || x == id by {
            let k = choose|k: int| 0 <= k < n1.len() && n1[k] == x;
            if k < n0.len() {
                assert(n1[k] == n0[k]);
            }
        }
        assert forall|x: Seq<char>| n0.contains(x) implies n1.contains(x) by {
            let k = choose|k: int| 0 <= k < n0.len() && n0[k] == x;
            assert(n1[k] == n0[k]);
        }
    }
}

/// After an append, the listed accounts are those listed before and `id`.
pub proof fn lemma_appended_listed(old: Vaults, new: Vaults, id: Seq<char>)
    requires
        appended(old, new, id),
    ensures
        forall|a: Seq<char>| #[trigger] listed(new, a) <==> listed(old, a) || a == id,
{
    let n0 = names(old.unsorted_vaults@);
    let n1 = names(new.unsorted_vaults@);
    assert forall|a: Seq<char>| #[trigger] listed(new, a) <==> listed(old, a) || a == id by {
        if n1.contains(a) {
            let k = choose|k: int| 0 <= k < n1.len() && n1[k] == a;
            if k < n0.len() {
                assert(n0[k] == a);
            }
        }
        if n0.contains(a) {
            let k = choose|k: int| 0 <= k < n0.len() && n0[k] == a;
            assert(n1[k] == a);
        }
        if a == id {
            assert(n1[n0.len() as int] == a);
        }
    }
}

/// Removing the account at the slot recorded for `id` keeps an orderly
/// list orderly and takes exactly that account off it; `id` is not listed
/// afterwards, and where it was listed, it is the account taken off.
pub proof fn lemma_swap_removed(old: Vaults, new: Vaults, id: Seq<char>)
    requires
        vaults_wf(old),
        old.account_to_index.map().dom().contains(id),
        old.account_to_index.map()[id] < names(old.unsorted_vaults@).len(),
        swap_removed(old, new, id),
    ensures
        vaults_wf(new),
        !listed(new, id),
        listed(old, id) ==> names(old.unsorted_vaults@)[old.account_to_index.map()[id] as int] == id,
        names(new.unsorted_vaults@).to_set() == names(old.unsorted_vaults@).to_set().remove(
            names(old.unsorted_vaults@)[old.account_to_index.map()[id] as int]),
{
    let n0 = names(old.unsorted_vaults@);
    let n1 = names(new.unsorted_vaults@);
    let m0 = old.account_to_index.map();
    let m1 = new.account_to_index.map();
    let p = m0[id] as int;
    let gone = n0[p];
    if listed(old, id) {
        let q = choose|q: int| 0 <= q < n0.len() && n0[q] == id;
        assert(m0.dom().contains(n0[q]) && m0[n0[q]] == q);
    }
    let last = n0.len() - 1;
    assert(m0.dom().contains(n0[last]));
    assert forall|i: int| 0 <= i < n1.len() implies n1[i] == if i == p { n0[last] } else { n0[i] } by {}
    assert(n1.len() == last);
    assert forall|i: int| 0 <= i < n1.len() implies #[trigger] m1.dom().contains(n1[i]) && m1[n1[i]] == i by {
        if i != p {
            assert(m0.dom().contains(n0[i]));
            assert(n0[i] != n0[last]);
            assert(n1[i] == n0[i]);
        } else {
            assert(n1[i] == n0[last]);
        }
    }
    assert forall|i: int, j: int| 0 <= i < j < n1.len() implies n1[i] != n1[j] by {
        if i == p {
            assert(n1[j] == n0[j]);
        } else if j == p {
            assert(n1[i] == n0[i]);
        } else {
            assert(n1[i] == n0[i] && n1[j] == n0[j]);
        }
    }
    assert(vaults_wf(new));
    assert(n1.to_set() =~= n0.to_set().remove(gone)) by {
        assert forall|x: Seq<char>| n1.contains(x) implies n0.contains(x) && x != gone by {
            let k = choose|k: int| 0 <= k < n1.len() && n1[k] == x;
            if k == p {
                assert(n0[last] == x);
            } else {
                assert(n0[k] == x);
            }
        }
        assert forall|x: Seq<char>| n0.contains(x) && x != gone implies n1.contains(x) by {
            let k = choose|k: int| 0 <= k < n0.len() && n0[k] == x;
            if k == last {
                assert(n1[p] == x);
            } else {
                assert(k != p);
                assert(n1[k] == x);
            }
        }
    }
    if listed(new, id) {
        assert(n1.to_set().contains(id));
        assert(n0.contains(id));
    }
}

/// The list is orderly and lists only registered accounts whose guarantee
/// is reserved.
pub open spec fn list_kept(s: &OinStake) -> bool {
    &&& vaults_wf(s.vaults)
    &&& forall|a: Seq<char>| #[trigger] listed(s.vaults, a)
        ==> s.positions.map().dom().contains(a) && s.positions.map()[a].guarantee > 0
}

/// Writing a position that keeps a reserved guarantee wherever its account
/// is listed, with the list untouched, keeps the list in order.
pub proof fn lemma_list_kept_insert(s: &OinStake, t: &OinStake, k: Seq<char>, q: Position)
    requires
        list_kept(s),
        t.vaults == s.vaults,
        t.positions.map() == s.positions.map().insert(k, q),
        listed(s.vaults, k) ==> q.guarantee > 0,
    ensures
        list_kept(t),
{
    assert forall|a: Seq<char>| #[trigger] listed(t.vaults, a)
        implies t.positions.map().dom().contains(a) && t.positions.map()[a].guarantee > 0 by {
        assert(listed(s.vaults, a));
    }
}

impl OinStake {
    /// Appends `id` to the list and records its position.
    pub fn _vault_init(&mut self, id: &String)
        requires
            old(self).wf(),
        ensures
            final(self).wf(),
            *final(self) == (OinStake { vaults: final(self).vaults, ..*old(self) }),
            names(final(self).vaults.unsorted_vaults@) == names(old(self).vaults.unsorted_vaults@).push(id@),
            final(self).vaults.account_to_index.map() == old(self).vaults.account_to_index.map().insert(
                id@, old(self).vaults.unsorted_vaults@.len() as usize),
            vaults_wf(old(self).vaults) && !listed(old(self).vaults, id@) ==> {
                &&& vaults_wf(final(self).vaults)
                &&& listed(final(self).vaults, id@)
                &&& names(final(self).vaults.unsorted_vaults@).to_set()
                    == names(old(self).vaults.unsorted_vaults@).to_set().insert(id@)
            },
    {
        let cur_index = self.vaults.unsorted_vaults.len();
        self.vaults.unsorted_vaults.push(id.clone());
        self.vaults.account_to_index.insert(id.clone(), cur_index);
        proof {
            assert(names(self.vaults.unsorted_vaults@) =~= names(old(self).vaults.unsorted_vaults@).push(id@));
            if vaults_wf(old(self).vaults) && !listed(old(self).vaults, id@) {
                lemma_appended(old(self).vaults, self.vaults, id@);
            }
        }
    }

    /// Removes `id` from the list: the last account takes its slot.
    pub fn _vault_remove(&mut self, id: &String) -> (r: Result<(), ContractError>)
        requires
            old(self).wf(),
        ensures
            final(self).wf(),
            *final(self) == (OinStake { vaults: final(self).vaults, ..*old(self) }),
            ({
                let m = old(self).vaults.account_to_index.map();
                let v = names(old(self).vaults.unsorted_vaults@);
                &&& !m.dom().contains(id@) ==> r == Err::<(), ContractError>(ContractError::NotLegalGet)
                &&& r is Ok <==> m.dom().contains(id@) && m[id@] < v.len()
                &&& r is Ok ==> {
                    &&& names(final(self).vaults.unsorted_vaults@) == v.update(m[id@] as int, v.last()).drop_last()
                    &&& final(self).vaults.account_to_index.map() == m.insert(v.last(), m[id@])
                }
            }),
            vaults_wf(old(self).vaults) && r is Ok ==> {
                &&& vaults_wf(final(self).vaults)
                &&& !listed(final(self).vaults, id@)
                &&& forall|a: Seq<char>| #[trigger] listed(final(self).vaults, a) ==> listed(old(self).vaults, a)
            },
            vaults_wf(old(self).vaults) && listed(old(self).vaults, id@) ==> {
                &&& r is Ok
                &&& names(final(self).vaults.unsorted_vaults@).to_set()
                    == names(old(self).vaults.unsorted_vaults@).to_set().remove(id@)
            },
    {
        let index = match self.vaults.account_to_index.get(id) {
            Some(i) => i,
            None => return Err(ContractError::NotLegalGet),
        };
        let n = self.vaults.unsorted_vaults.len();
        if n == 0 {
            return Err(ContractError::Overflow);
        }
        if index >= n {
            return Err(ContractError::IndexOutOfBounds);
        }
        let change_account = self.vaults.unsorted_vaults[n - 1].clone();
        self.vaults.account_to_index.insert(change_account, index);
        let ghost before = self.vaults.unsorted_vaults@;
        self.vaults.unsorted_vaults.swap_remove(index);
        proof {
            let v = names(before);
            assert(names(self.vaults.unsorted_vaults@) =~= v.update(index as int, v.last()).drop_last());
            if vaults_wf(old(self).vaults) {
                lemma_swap_removed(old(self).vaults, self.vaults, id@);
                assert forall|a: Seq<char>| #[trigger] listed(self.vaults, a) implies listed(old(self).vaults, a) by {
                    assert(names(self.vaults.unsorted_vaults@).to_set().contains(a));
                }
            }
        }
        Ok(())
    }

    /// The accounts with a pledge.
    pub fn list_liqutations(&self) -> (r: Vec<String>)
        ensures
            names(r@) == names(self.vaults.unsorted_vaults@),
    {
        let mut out: Vec<String> = Vec::new();
        let mut i: usize = 0;
        while i < self.vaults.unsorted_vaults.len()
            invariant
                i <= self.vaults.unsorted_vaults@.len(),
                names(out@) == names(self.vaults.unsorted_vaults@.subrange(0, i as int)),
            decreases self.vaults.unsorted_vaults@.len() - i,
        {
            out.push(self.vaults.unsorted_vaults[i].clone());
            proof {
                assert(names(self.vaults.unsorted_vaults@.subrange(0, i + 1)) =~= names(
                    self.vaults.unsorted_vaults@.subrange(0, i as int)).push(self.vaults.unsorted_vaults@[i as int]@));
                assert(names(out@) =~= names(self.vaults.unsorted_vaults@.subrange(0, i + 1)));
            }
            i = i + 1;
        }
        proof {
            assert(self.vaults.unsorted_vaults@.subrange(0, i as int) =~= self.vaults.unsorted_vaults@);
        }
        out
    }
}

} // verus!
