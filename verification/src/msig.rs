//! Multi-signature administration: administrators add requests, confirm
//! them with their keys, and execute those confirmed by enough of them once
//! the cool-down has passed.
use vstd::prelude::*;
use crate::book::{BookKey, Dup};
use crate::consts::{ONE_FOR_NUM_RATIO, REQUEST_EXPIRE_TIME};
use crate::error::ContractError;
use crate::msig_types::{Confirmations, MultiSigRequest, MultiSigRequestWithSigner};
use crate::state::{MultiSig, OinStake};

verus! {

/// How the calls of an executed request went.
#[derive(Clone, Copy, Debug, PartialEq, Eq, Structural)]
pub enum CallOutcome {
    NotReady,
    Successful,
    Failed,
}

/// The callback an executed request's calls report their outcome to.
pub trait ExtMultisign {
    /// The receiver is in a state the callback accepts.
    spec fn accepts(&self) -> bool;

    fn on_function_call(&mut self, request_id: u32, outcome: CallOutcome) -> (r: Result<bool, ContractError>)
        requires
            old(self).accepts(),
        ensures
            final(self).accepts(),
            outcome == CallOutcome::Successful ==> r == Ok::<bool, ContractError>(true),
            outcome == CallOutcome::NotReady ==> r == Ok::<bool, ContractError>(false),
            outcome == CallOutcome::Failed ==> r != Ok::<bool, ContractError>(true),
    ;
}

impl ExtMultisign for OinStake {
    open spec fn accepts(&self) -> bool {
        self.wf()
    }

    fn on_function_call(&mut self, request_id: u32, outcome: CallOutcome) -> (r: Result<bool, ContractError>) {
        OinStake::on_function_call(self, request_id, outcome)
    }
}

/// The request `id`.
pub open spec fn req(s: &OinStake, id: u32) -> MultiSigRequestWithSigner {
    s.multisig.requests.map()[id]
}

/// The keys that confirmed request `id`.
pub open spec fn conf_keys(s: &OinStake, id: u32) -> Seq<Seq<u8>> {
    s.multisig.confirmations.map()[id].keys_view()
}

/// Request `id` and its confirmations are recorded.
pub open spec fn has_req(s: &OinStake, id: u32) -> bool {
    s.multisig.requests.map().dom().contains(id) && s.multisig.confirmations.map().dom().contains(id)
}

/// Whether request `id` has enough confirmations: before the vote passed
/// against the current number of administrators, after it against the
/// number when it passed.
pub open spec fn num_enough_spec(s: &OinStake, id: u32) -> Option<bool> {
    if !has_req(s, id) {
        None
    } else {
        let r = req(s, id);
        let n: int = if r.confirmed_timestamp == 0 {
            s.multisig.mul_white_list.len_spec() as int
        } else {
            r.mul_white_num as int
        };
        let needed = r.num_confirm_ratio * n;
        let have = conf_keys(s, id).len() * ONE_FOR_NUM_RATIO;
        if needed > u64::MAX || have > u64::MAX {
            None
        } else {
            Some(have >= needed)
        }
    }
}

/// Whether request `id` can be executed at `now`: enough confirmations,
/// not executed yet and the cool-down over since it passed.
pub open spec fn executable_spec(s: &OinStake, id: u32, now: u64) -> Option<bool> {
    if !s.multisig.requests.map().dom().contains(id) {
        None
    } else {
        let r = req(s, id);
        match num_enough_spec(s, id) {
            None => None,
            Some(false) => Some(false),
            Some(true) => if r.is_executed {
                Some(false)
            } else if now < r.confirmed_timestamp {
                None
            } else {
                Some(now - r.confirmed_timestamp >= r.cool_down)
            },
        }
    }
}

/// Whether `pk` can confirm request `id`.
pub open spec fn confirm_ok(s: &OinStake, id: u32, pk: Seq<u8>) -> bool {
    &&& has_req(s, id)
    &&& !conf_keys(s, id).contains(pk)
    &&& req(s, id).confirmed_timestamp == 0
    &&& req(s, id).num_confirm_ratio * s.multisig.mul_white_list.len_spec() <= u64::MAX
    &&& (conf_keys(s, id).len() + 1) * ONE_FOR_NUM_RATIO <= u64::MAX
}

/// Two records of the same request that differ at most in the vote's
/// outcome and the execution flag.
pub open spec fn same_request(a: MultiSigRequestWithSigner, b: MultiSigRequestWithSigner) -> bool {
    &&& a.request.eqv(&b.request)
    &&& a.signer_pk@ == b.signer_pk@
    &&& a.added_timestamp == b.added_timestamp
    &&& a.cool_down == b.cool_down
    &&& a.num_confirm_ratio == b.num_confirm_ratio
}

/// `t` is `s` with the confirmation of request `id` by `pk` at `now`
/// recorded: when it makes enough confirmations, the vote passes at `now`
/// with the current number of administrators.
pub open spec fn confirmed_by(s: &OinStake, t: &OinStake, id: u32, pk: Seq<u8>, now: u64) -> bool {
    let m = s.multisig;
    &&& conf_keys(t, id) == conf_keys(s, id).push(pk)
    &&& t.multisig.confirmations.map().dom() == m.confirmations.map().dom()
    &&& forall|k: u32| k != id && #[trigger] m.confirmations.map().dom().contains(k)
        ==> t.multisig.confirmations.map()[k] == m.confirmations.map()[k]
    &&& t.multisig.requests.map().dom() == m.requests.map().dom()
    &&& forall|k: u32| k != id && #[trigger] m.requests.map().dom().contains(k)
        ==> t.multisig.requests.map()[k] == m.requests.map()[k]
    &&& same_request(req(t, id), req(s, id))
    &&& req(t, id).is_executed == req(s, id).is_executed
    &&& num_enough_spec(t, id) is Some
    &&& if num_enough_spec(t, id) == Some(true) {
        &&& req(t, id).confirmed_timestamp == now
        &&& req(t, id).mul_white_num == m.mul_white_list.len_spec()
    } else {
        &&& req(t, id).confirmed_timestamp == 0
        &&& req(t, id).mul_white_num == req(s, id).mul_white_num
    }
    &&& *t == (OinStake {
        multisig: MultiSig { requests: t.multisig.requests, confirmations: t.multisig.confirmations, ..m },
        ..*s
    })
}

/// `t` is `s` with request `inner`, signed by `pk` at `now`, recorded under
/// the next id with no confirmation, and counted for the key.
pub open spec fn added_request(s: &OinStake, t: &OinStake, inner: MultiSigRequest, pk: Seq<u8>, now: u64) -> bool {
    let m = s.multisig;
    let pkm = m.num_requests_pk.map();
    let count: int = if pkm.dom().contains(pk) { pkm[pk] as int } else { 0 };
    let id = m.request_nonce;
    let rq = t.multisig.requests.map()[id];
    &&& t.multisig.request_nonce == id + 1
    &&& t.multisig.num_requests_pk.map() == pkm.insert(pk, (count + 1) as u32)
    &&& t.multisig.requests.map().dom() == m.requests.map().dom().insert(id)
    &&& forall|k: u32| k != id && #[trigger] m.requests.map().dom().contains(k)
        ==> t.multisig.requests.map()[k] == m.requests.map()[k]
    &&& rq.request.eqv(&inner)
    &&& rq.signer_pk@ == pk
    &&& rq.added_timestamp == now
    &&& rq.confirmed_timestamp == 0
    &&& !rq.is_executed
    &&& rq.cool_down == m.request_cooldown
    &&& rq.mul_white_num == 0
    &&& rq.num_confirm_ratio == m.num_confirm_ratio
    &&& t.multisig.confirmations.map().dom() == m.confirmations.map().dom().insert(id)
    &&& conf_keys(t, id) == Seq::<Seq<u8>>::empty()
    &&& forall|k: u32| k != id && #[trigger] m.confirmations.map().dom().contains(k)
        ==> t.multisig.confirmations.map()[k] == m.confirmations.map()[k]
    &&& *t == (OinStake {
        multisig: MultiSig {
            requests: t.multisig.requests,
            confirmations: t.multisig.confirmations,
            num_requests_pk: t.multisig.num_requests_pk,
            request_nonce: t.multisig.request_nonce,
            ..m
        },
        ..*s
    })
}

/// `t` is `s` with request `id` and its confirmations removed, and one
/// request less counted for its signer's key.
pub open spec fn removed_request(s: &OinStake, t: &OinStake, id: u32) -> bool {
    let m = s.multisig;
    let pk = m.requests.map()[id].signer_pk@;
    let pkm = m.num_requests_pk.map();
    let count: int = if pkm.dom().contains(pk) { pkm[pk] as int } else { 0 };
    &&& t.multisig.requests.map() == m.requests.map().remove(id)
    &&& t.multisig.confirmations.map() == m.confirmations.map().remove(id)
    &&& t.multisig.num_requests_pk.map() == pkm.insert(pk, if count > 0 { (count - 1) as u32 } else { 0 })
    &&& *t == (OinStake {
        multisig: MultiSig {
            requests: t.multisig.requests,
            confirmations: t.multisig.confirmations,
            num_requests_pk: t.multisig.num_requests_pk,
            ..m
        },
        ..*s
    })
}

/// The status of request `id` at `now`: 2 executed, 1 confirmed, 3
/// expired, 0 in vote.
pub open spec fn status_spec(s: &OinStake, id: u32, now: u64) -> Option<u32> {
    if !s.multisig.requests.map().dom().contains(id) || now < req(s, id).added_timestamp {
        None
    } else if req(s, id).is_executed {
        Some(2)
    } else {
        match num_enough_spec(s, id) {
            None => None,
            Some(true) => Some(1),
            Some(false) => if now - req(s, id).added_timestamp >= REQUEST_EXPIRE_TIME { Some(3) } else { Some(0) },
        }
    }
}

impl Confirmations {
    /// Whether `pk` confirmed.
    pub fn contains(&self, pk: &Vec<u8>) -> (r: bool)
        ensures
            r == self.keys_view().contains(pk@),
    {
        let mut i: usize = 0;
        while i < self.keys.len()
            invariant
                i <= self.keys.len(),
                forall|j: int| 0 <= j < i ==> #[trigger] self.keys@[j]@ != pk@,
            decreases self.keys.len() - i,
        {
            if self.keys[i].same(pk) {
                proof {
                    assert(self.keys_view()[i as int] == pk@);
                }
                return true;
            }
            i = i + 1;
        }
        proof {
            if self.keys_view().contains(pk@) {
                let j = choose|j: int| 0 <= j < self.keys_view().len() && self.keys_view()[j] == pk@;
                assert(self.keys@[j]@ == pk@);
            }
        }
        false
    }
}

impl OinStake {
    /// Whether request `id` has enough confirmations.
    pub fn is_num_enough(&self, id: u32) -> (r: Result<bool, ContractError>)
        requires
            self.wf(),
        ensures
            match r {
                Ok(b) => num_enough_spec(self, id) == Some(b),
                Err(_) => num_enough_spec(self, id) is None,
            },
    {
        let request = match self.multisig.requests.get(&id) {
            Some(r) => r,
            None => return Err(ContractError::NoneUnwrapped),
        };
        let confirmations = match self.multisig.confirmations.get(&id) {
            Some(c) => c,
            None => return Err(ContractError::NoneUnwrapped),
        };
        assert(confirmations.keys_view().len() == confirmations.keys@.len());
        let n = if request.confirmed_timestamp == 0 { self.mul_white_num() } else { request.mul_white_num };
        let needed = match request.num_confirm_ratio.checked_mul(n) {
            Some(v) => v,
            None => return Err(ContractError::MulOverflow),
        };
        let have = match (confirmations.keys.len() as u64).checked_mul(ONE_FOR_NUM_RATIO) {
            Some(v) => v,
            None => return Err(ContractError::MulOverflow),
        };
        Ok(have >= needed)
    }

    /// Whether request `id` can be executed at `now`.
    pub fn is_executable(&self, id: u32, now: u64) -> (r: Result<bool, ContractError>)
        requires
            self.wf(),
        ensures
            match r {
                Ok(b) => executable_spec(self, id, now) == Some(b),
                Err(_) => executable_spec(self, id, now) is None,
            },
    {
        let request = match self.multisig.requests.get(&id) {
            Some(r) => r,
            None => return Err(ContractError::NoneUnwrapped),
        };
        if !self.is_num_enough(id)? {
            return Ok(false);
        }
        if request.is_executed {
            return Ok(false);
        }
        match now.checked_sub(request.confirmed_timestamp) {
            Some(d) => Ok(d >= request.cool_down),
            None => Err(ContractError::SubOverflow),
        }
    }

    /// Records the confirmation of request `id` by `signer_pk` at `now`;
    /// when that makes enough, the vote passes: its time and the number of
    /// administrators are recorded.
    pub fn _confirm(&mut self, id: u32, signer_pk: &Vec<u8>, now: u64) -> (r: Result<(), ContractError>)
        requires
            old(self).wf(),
        ensures
            final(self).wf(),
            !has_req(old(self), id) ==> r == Err::<(), ContractError>(ContractError::NoneUnwrapped),
            has_req(old(self), id) && conf_keys(old(self), id).contains(signer_pk@)
                ==> r == Err::<(), ContractError>(ContractError::AlreadyConfirmed),
            has_req(old(self), id) && !conf_keys(old(self), id).contains(signer_pk@)
                && req(old(self), id).confirmed_timestamp != 0
                ==> r == Err::<(), ContractError>(ContractError::RequestConfirmed),
            r is Ok <==> confirm_ok(old(self), id, signer_pk@),
            r is Ok ==> {
                let s = old(self);
                let m = s.multisig;
                &&& has_req(s, id)
                &&& !conf_keys(s, id).contains(signer_pk@)
                &&& req(s, id).confirmed_timestamp == 0
                &&& confirmed_by(s, final(self), id, signer_pk@, now)
            },
    {
        let mut confirmations = match self.multisig.confirmations.get(&id) {
            Some(c) => c,
            None => return Err(ContractError::NoneUnwrapped),
        };
        let mut request = match self.multisig.requests.get(&id) {
            Some(r) => r,
            None => return Err(ContractError::NoneUnwrapped),
        };
        if confirmations.contains(signer_pk) {
            return Err(ContractError::AlreadyConfirmed);
        }
        if request.confirmed_timestamp != 0 {
            return Err(ContractError::RequestConfirmed);
        }
        let ghost before = confirmations.keys_view();
        confirmations.keys.push(signer_pk.dup_key());
        proof {
            assert(confirmations.keys_view() =~= before.push(signer_pk@));
        }
        self.multisig.confirmations.insert(id, confirmations);
        if self.is_num_enough(id)? {
            request.confirmed_timestamp = now;
            request.mul_white_num = self.mul_white_num();
            self.multisig.requests.insert(id, request);
        }
        proof {
            let s = old(self);
            let m = s.multisig;
            assert(conf_keys(self, id) == conf_keys(s, id).push(signer_pk@));
            assert(self.multisig.confirmations.map().dom() == m.confirmations.map().dom());
            assert(self.multisig.requests.map().dom() == m.requests.map().dom());
            assert(same_request(req(self, id), req(s, id)));
            assert(num_enough_spec(self, id) is Some);
        }
        Ok(())
    }

    /// Records request `inner` signed by `signer_pk` at `now` under the next
    /// id, with no confirmation yet, and counts it for the key.
    pub fn add_request_only(&mut self, inner: MultiSigRequest, signer_pk: &Vec<u8>, now: u64) -> (r: Result<u32, ContractError>)
        requires
            old(self).wf(),
        ensures
            final(self).wf(),
            ({
                let m = old(self).multisig;
                let pkm = m.num_requests_pk.map();
                let count: int = if pkm.dom().contains(signer_pk@) { pkm[signer_pk@] as int } else { 0 };
                let id = m.request_nonce;
                &&& r is Ok <==> count + 1 <= u32::MAX && id < u32::MAX
                &&& r is Err ==> r == Err::<u32, ContractError>(ContractError::Overflow)
                &&& r is Ok ==> r->Ok_0 == id && added_request(old(self), final(self), inner, signer_pk@, now)
            }),
    {
        let count = match self.multisig.num_requests_pk.get(signer_pk) {
            Some(c) => c,
            None => 0,
        };
        let count = match count.checked_add(1) {
            Some(c) => c,
            None => return Err(ContractError::Overflow),
        };
        let id = self.multisig.request_nonce;
        let next = match id.checked_add(1) {
            Some(n) => n,
            None => return Err(ContractError::Overflow),
        };
        self.multisig.num_requests_pk.insert(signer_pk.dup_key(), count);
        let req_added = MultiSigRequestWithSigner {
            signer_pk: signer_pk.dup_key(),
            added_timestamp: now,
            confirmed_timestamp: 0,
            request: inner.dup(),
            is_executed: false,
            cool_down: self.multisig.request_cooldown,
            mul_white_num: 0,
            num_confirm_ratio: self.multisig.num_confirm_ratio,
        };
        self.multisig.requests.insert(id, req_added);
        let empty = Confirmations { keys: Vec::new() };
        proof {
            assert(empty.keys_view() =~= Seq::<Seq<u8>>::empty());
        }
        self.multisig.confirmations.insert(id, empty);
        self.multisig.request_nonce = next;
        Ok(id)
    }

    /// A multi-signature administrator `caller` adds request `inner`,
    /// signed with `signer_pk` at `now`, and confirms it.
    pub fn add_request(&mut self, caller: &String, inner: MultiSigRequest, signer_pk: &Vec<u8>, now: u64)
        -> (r: Result<u32, ContractError>)
        requires
            old(self).wf(),
        ensures
            final(self).wf(),
            !old(self).multisig.mul_white_list.map().dom().contains(caller@)
                ==> r == Err::<u32, ContractError>(ContractError::NotMulWhite),
            ({
                let m = old(self).multisig;
                let pkm = m.num_requests_pk.map();
                let count: int = if pkm.dom().contains(signer_pk@) { pkm[signer_pk@] as int } else { 0 };
                r is Ok <==> m.mul_white_list.map().dom().contains(caller@) && count + 1 <= u32::MAX
                    && m.request_nonce < u32::MAX && m.num_confirm_ratio * m.mul_white_list.len_spec() <= u64::MAX
            }),
            r is Ok ==> {
                let id = old(self).multisig.request_nonce;
                &&& r->Ok_0 == id
                &&& has_req(final(self), id)
                &&& conf_keys(final(self), id) == seq![signer_pk@]
                &&& req(final(self), id).request.eqv(&inner)
                &&& exists|mid: OinStake| #[trigger] added_request(old(self), &mid, inner, signer_pk@, now)
                    && confirmed_by(&mid, final(self), id, signer_pk@, now)
            },
    {
        self.assert_mul_white(caller)?;
        let id = self.add_request_only(inner, signer_pk, now)?;
        let ghost mid = *self;
        self._confirm(id, signer_pk, now)?;
        proof {
            assert(conf_keys(self, id) =~= seq![signer_pk@]);
            crate::msig_types::lemma_request_eqv_trans(req(self, id).request, req(&mid, id).request, inner);
            assert(added_request(old(self), &mid, inner, signer_pk@, now));
        }
        Ok(id)
    }

    /// Request `id` and its confirmations exist.
    pub fn assert_valid_request(&self, id: u32) -> (r: Result<(), ContractError>)
        requires
            self.wf(),
        ensures
            !self.multisig.requests.map().dom().contains(id) ==> r == Err::<(), ContractError>(ContractError::NoSuchRequest),
            self.multisig.requests.map().dom().contains(id) && !self.multisig.confirmations.map().dom().contains(id)
                ==> r == Err::<(), ContractError>(ContractError::ConfirmationsMismatch),
            r is Ok <==> has_req(self, id),
    {
        if !self.multisig.requests.contains(&id) {
            return Err(ContractError::NoSuchRequest);
        }
        if !self.multisig.confirmations.contains(&id) {
            return Err(ContractError::ConfirmationsMismatch);
        }
        Ok(())
    }

    /// Removes request `id` and its confirmations, and uncounts it for its
    /// signer. Returns the request.
    pub fn remove_request(&mut self, id: u32) -> (r: Result<MultiSigRequest, ContractError>)
        requires
            old(self).wf(),
        ensures
            final(self).wf(),
            ({
                let m = old(self).multisig;
                let pk = m.requests.map()[id].signer_pk@;
                let pkm = m.num_requests_pk.map();
                let count: int = if pkm.dom().contains(pk) { pkm[pk] as int } else { 0 };
                &&& r is Ok <==> m.requests.map().dom().contains(id)
                &&& r is Err ==> r == Err::<MultiSigRequest, ContractError>(ContractError::NoRequest)
                &&& r is Ok ==> (r->Ok_0).eqv(&m.requests.map()[id].request) && removed_request(old(self), final(self), id)
            }),
    {
        let _ = self.multisig.confirmations.remove(&id);
        let rq = match self.multisig.requests.remove(&id) {
            Some(rq) => rq,
            None => return Err(ContractError::NoRequest),
        };
        let mut count = match self.multisig.num_requests_pk.get(&rq.signer_pk) {
            Some(c) => c,
            None => 0,
        };
        if count > 0 {
            count = count - 1;
        }
        self.multisig.num_requests_pk.insert(rq.signer_pk.dup_key(), count);
        Ok(rq.request)
    }

    /// The owner `caller` deletes request `id`.
    pub fn delete_request(&mut self, caller: &String, id: u32) -> (r: Result<(), ContractError>)
        requires
            old(self).wf(),
        ensures
            final(self).wf(),
            caller@ != old(self).owner_id@ ==> r == Err::<(), ContractError>(ContractError::NotAllowed),
            r is Ok <==> caller@ == old(self).owner_id@ && has_req(old(self), id),
            r is Ok ==> removed_request(old(self), final(self), id),
    {
        self.assert_owner(caller)?;
        self.assert_valid_request(id)?;
        let _ = self.remove_request(id)?;
        Ok(())
    }

    /// A multi-signature administrator `caller` confirms request `id` with
    /// `signer_pk` at `now`.
    pub fn confirm(&mut self, caller: &String, id: u32, signer_pk: &Vec<u8>, now: u64) -> (r: Result<(), ContractError>)
        requires
            old(self).wf(),
        ensures
            final(self).wf(),
            !old(self).multisig.mul_white_list.map().dom().contains(caller@)
                ==> r == Err::<(), ContractError>(ContractError::NotMulWhite),
            old(self).multisig.mul_white_list.map().dom().contains(caller@) && !old(self).multisig.requests.map().dom().contains(id)
                ==> r == Err::<(), ContractError>(ContractError::NoSuchRequest),
            r is Ok <==> old(self).multisig.mul_white_list.map().dom().contains(caller@)
                && confirm_ok(old(self), id, signer_pk@),
            r is Ok ==> has_req(old(self), id) && confirmed_by(old(self), final(self), id, signer_pk@, now),
    {
        self.assert_mul_white(caller)?;
        self.assert_valid_request(id)?;
        self._confirm(id, signer_pk, now)
    }

    /// A multi-signature administrator `caller` executes request `id` at
    /// `now`: it is marked executed and its actions are returned, for the
    /// contract to call on itself, each followed by `on_function_call`.
    pub fn exe_request(&mut self, caller: &String, id: u32, now: u64) -> (r: Result<MultiSigRequest, ContractError>)
        requires
            old(self).wf(),
        ensures
            final(self).wf(),
            !old(self).multisig.mul_white_list.map().dom().contains(caller@)
                ==> r == Err::<MultiSigRequest, ContractError>(ContractError::NotMulWhite),
            old(self).multisig.mul_white_list.map().dom().contains(caller@) && executable_spec(old(self), id, now) == Some(false)
                ==> r == Err::<MultiSigRequest, ContractError>(ContractError::RequestNotExecutable),
            r is Ok <==> old(self).multisig.mul_white_list.map().dom().contains(caller@)
                && executable_spec(old(self), id, now) == Some(true),
            r is Ok ==> {
                let m = old(self).multisig;
                &&& (r->Ok_0).eqv(&req(old(self), id).request)
                &&& req(final(self), id).is_executed
                &&& same_request(req(final(self), id), req(old(self), id))
                &&& req(final(self), id).confirmed_timestamp == req(old(self), id).confirmed_timestamp
                &&& req(final(self), id).mul_white_num == req(old(self), id).mul_white_num
                &&& final(self).multisig.requests.map().dom() == m.requests.map().dom()
                &&& forall|k: u32| k != id && #[trigger] m.requests.map().dom().contains(k)
                    ==> final(self).multisig.requests.map()[k] == m.requests.map()[k]
                &&& *final(self) == (OinStake {
                    multisig: MultiSig { requests: final(self).multisig.requests, ..m },
                    ..*old(self)
                })
            },
    {
        self.assert_mul_white(caller)?;
        if !self.is_executable(id, now)? {
            return Err(ContractError::RequestNotExecutable);
        }
        let mut rq = match self.multisig.requests.get(&id) {
            Some(rq) => rq,
            None => return Err(ContractError::NotLegalGet),
        };
        let inner = rq.request.dup();
        proof {
            crate::msig_types::lemma_request_eqv_trans(inner, rq.request, req(old(self), id).request);
        }
        rq.is_executed = true;
        self.multisig.requests.insert(id, rq);
        Ok(inner)
    }

    /// Outcome of an executed request's calls: a failure makes the request
    /// executable again. Returns whether the calls succeeded.
    pub fn on_function_call(&mut self, id: u32, outcome: CallOutcome) -> (r: Result<bool, ContractError>)
        requires
            old(self).wf(),
        ensures
            final(self).wf(),
            outcome == CallOutcome::NotReady ==> r == Ok::<bool, ContractError>(false) && *final(self) == *old(self),
            outcome == CallOutcome::Successful ==> r == Ok::<bool, ContractError>(true) && *final(self) == *old(self),
            outcome == CallOutcome::Failed ==> {
                let m = old(self).multisig;
                &&& r is Ok <==> m.requests.map().dom().contains(id)
                &&& r is Err ==> r == Err::<bool, ContractError>(ContractError::NotLegalGet)
                &&& r is Ok ==> {
                    &&& r->Ok_0 == false
                    &&& !req(final(self), id).is_executed
                    &&& same_request(req(final(self), id), req(old(self), id))
                    &&& req(final(self), id).confirmed_timestamp == req(old(self), id).confirmed_timestamp
                    &&& req(final(self), id).mul_white_num == req(old(self), id).mul_white_num
                    &&& final(self).multisig.requests.map().dom() == m.requests.map().dom()
                    &&& forall|k: u32| k != id && #[trigger] m.requests.map().dom().contains(k)
                        ==> final(self).multisig.requests.map()[k] == m.requests.map()[k]
                    &&& *final(self) == (OinStake {
                        multisig: MultiSig { requests: final(self).multisig.requests, ..m },
                        ..*old(self)
                    })
                }
            },
    {
        match outcome {
            CallOutcome::NotReady => Ok(false),
            CallOutcome::Successful => Ok(true),
            CallOutcome::Failed => {
                let mut rq = match self.multisig.requests.get(&id) {
                    Some(rq) => rq,
                    None => return Err(ContractError::NotLegalGet),
                };
                rq.is_executed = false;
                self.multisig.requests.insert(id, rq);
                Ok(false)
            },
        }
    }

    /// Whether `pk` confirmed request `id`.
    pub fn is_confirmed(&self, id: u32, pk: &Vec<u8>) -> (r: Result<bool, ContractError>)
        requires
            self.wf(),
        ensures
            r is Ok <==> self.multisig.confirmations.map().dom().contains(id),
            r matches Ok(b) ==> b == conf_keys(self, id).contains(pk@),
    {
        match self.multisig.confirmations.get(&id) {
            Some(c) => Ok(c.contains(pk)),
            None => Err(ContractError::NoneUnwrapped),
        }
    }

    /// The actions of request `id`.
    pub fn get_request(&self, id: u32) -> (r: Result<MultiSigRequest, ContractError>)
        requires
            self.wf(),
        ensures
            r is Ok <==> self.multisig.requests.map().dom().contains(id),
            r is Err ==> r == Err::<MultiSigRequest, ContractError>(ContractError::NoRequest),
            r matches Ok(q) ==> q.eqv(&req(self, id).request),
    {
        match self.multisig.requests.get(&id) {
            Some(rq) => Ok(rq.request),
            None => Err(ContractError::NoRequest),
        }
    }

    /// Requests counted for `pk`.
    pub fn get_num_requests_pk(&self, pk: &Vec<u8>) -> (r: u32)
        requires
            self.wf(),
        ensures
            r == if self.multisig.num_requests_pk.map().dom().contains(pk@) {
                self.multisig.num_requests_pk.map()[pk@]
            } else {
                0
            },
    {
        match self.multisig.num_requests_pk.get(pk) {
            Some(c) => c,
            None => 0,
        }
    }

    /// The ids of the recorded requests.
    pub fn list_request_ids(&self) -> (r: Vec<u32>)
        requires
            self.wf(),
        ensures
            r@.map_values(|k: u32| k@) == self.multisig.requests.key_seq(),
    {
        self.multisig.requests.key_list()
    }

    /// How many keys confirmed request `id`.
    pub fn get_confirmed_num(&self, id: u32) -> (r: Result<u32, ContractError>)
        requires
            self.wf(),
        ensures
            r is Ok <==> self.multisig.confirmations.map().dom().contains(id),
            r is Err ==> r == Err::<u32, ContractError>(ContractError::NotLegalGet),
            r matches Ok(n) ==> n == conf_keys(self, id).len() as u32,
    {
        match self.multisig.confirmations.get(&id) {
            Some(c) => {
                proof { assert(c.keys_view().len() == c.keys@.len()); }
                Ok(c.keys.len() as u32)
            },
            None => Err(ContractError::NotLegalGet),
        }
    }

    /// The keys that confirmed request `id`.
    pub fn get_confirmations(&self, id: u32) -> (r: Result<Vec<Vec<u8>>, ContractError>)
        requires
            self.wf(),
        ensures
            r is Ok <==> self.multisig.confirmations.map().dom().contains(id),
            r is Err ==> r == Err::<Vec<Vec<u8>>, ContractError>(ContractError::NotLegalGet),
            r matches Ok(ks) ==> ks@.map_values(|k: Vec<u8>| k@) == conf_keys(self, id),
    {
        match self.multisig.confirmations.get(&id) {
            Some(c) => Ok(c.keys),
            None => Err(ContractError::NotLegalGet),
        }
    }

    /// The status of request `id` at `now`: 2 executed, 1 confirmed, 3
    /// expired, 0 in vote.
    pub fn req_status(&self, id: u32, now: u64) -> (r: Result<u32, ContractError>)
        requires
            self.wf(),
        ensures
            match r {
                Ok(v) => status_spec(self, id, now) == Some(v),
                Err(_) => status_spec(self, id, now) is None,
            },
    {
        let rq = match self.multisig.requests.get(&id) {
            Some(rq) => rq,
            None => return Err(ContractError::NoneUnwrapped),
        };
        let age = match now.checked_sub(rq.added_timestamp) {
            Some(a) => a,
            None => return Err(ContractError::Overflow),
        };
        let expired = age >= REQUEST_EXPIRE_TIME;
        if rq.is_executed {
            Ok(2)
        } else if self.is_num_enough(id)? {
            Ok(1)
        } else if expired {
            Ok(3)
        } else {
            Ok(0)
        }
    }
}

} // verus!
