//! Multi-signature requests: actions the contract performs on itself once
//! enough administrators confirmed them.
use vstd::prelude::*;
use crate::book::{BookKey, Dup};

verus! {

/// One action: a call of a method of this contract.
#[derive(Debug)]
pub enum MultiSigRequestAction {
    FunctionCall { method_name: String, args: Vec<u8>, deposit: u128, gas: u64 },
}

/// The actions of a request.
#[derive(Debug)]
pub struct MultiSigRequest {
    pub actions: Vec<MultiSigRequestAction>,
}

/// A request with its signer, times and vote parameters.
#[derive(Debug)]
pub struct MultiSigRequestWithSigner {
    pub request: MultiSigRequest,
    pub signer_pk: Vec<u8>,
    pub added_timestamp: u64,
    pub confirmed_timestamp: u64,
    pub is_executed: bool,
    pub cool_down: u64,
    pub num_confirm_ratio: u64,
    pub mul_white_num: u64,
}

/// The public keys that confirmed a request.
#[derive(Debug)]
pub struct Confirmations {
    pub keys: Vec<Vec<u8>>,
}

impl Confirmations {
    /// The keys as byte sequences.
    pub open spec fn keys_view(&self) -> Seq<Seq<u8>> {
        self.keys@.map_values(|k: Vec<u8>| k@)
    }
}

impl Dup for MultiSigRequestAction {
    open spec fn eqv(&self, other: &Self) -> bool {
        match (self, other) {
            (
                MultiSigRequestAction::FunctionCall { method_name: m1, args: a1, deposit: d1, gas: g1 },
                MultiSigRequestAction::FunctionCall { method_name: m2, args: a2, deposit: d2, gas: g2 },
            ) => m1 == m2 && a1@ == a2@ && d1 == d2 && g1 == g2,
        }
    }

    fn dup(&self) -> (r: Self) {
        match self {
            MultiSigRequestAction::FunctionCall { method_name, args, deposit, gas } => {
                let a = args.dup_key();
                proof {
                    assert(a@ == args@);
                }
                MultiSigRequestAction::FunctionCall {
                    method_name: method_name.clone(),
                    args: a,
                    deposit: *deposit,
                    gas: *gas,
                }
            },
        }
    }
}

impl Dup for MultiSigRequest {
    open spec fn eqv(&self, other: &Self) -> bool {
        &&& self.actions@.len() == other.actions@.len()
        &&& forall|i: int| 0 <= i < self.actions@.len() ==> #[trigger] self.actions@[i].eqv(&other.actions@[i])
    }

    fn dup(&self) -> (r: Self) {
        let mut out: Vec<MultiSigRequestAction> = Vec::new();
        let mut i: usize = 0;
        while i < self.actions.len()
            invariant
                i <= self.actions.len(),
                out@.len() == i,
                forall|j: int| 0 <= j < i ==> #[trigger] out@[j].eqv(&self.actions@[j]),
            decreases self.actions.len() - i,
        {
            out.push(self.actions[i].dup());
            i = i + 1;
        }
        MultiSigRequest { actions: out }
    }
}

/// Equivalent requests are equivalent through a third.
pub proof fn lemma_request_eqv_trans(a: MultiSigRequest, b: MultiSigRequest, c: MultiSigRequest)
    requires
        a.eqv(&b),
        b.eqv(&c),
    ensures
        a.eqv(&c),
{
    assert forall|i: int| 0 <= i < a.actions@.len() implies #[trigger] a.actions@[i].eqv(&c.actions@[i]) by {
        assert(a.actions@[i].eqv(&b.actions@[i]));
        assert(b.actions@[i].eqv(&c.actions@[i]));
    }
}

impl Dup for MultiSigRequestWithSigner {
    open spec fn eqv(&self, other: &Self) -> bool {
        &&& self.request.eqv(&other.request)
        &&& self.signer_pk@ == other.signer_pk@
        &&& self.added_timestamp == other.added_timestamp
        &&& self.confirmed_timestamp == other.confirmed_timestamp
        &&& self.is_executed == other.is_executed
        &&& self.cool_down == other.cool_down
        &&& self.num_confirm_ratio == other.num_confirm_ratio
        &&& self.mul_white_num == other.mul_white_num
    }

    fn dup(&self) -> (r: Self) {
        let pk = self.signer_pk.dup_key();
        proof {
            assert(pk@ == self.signer_pk@);
        }
        MultiSigRequestWithSigner {
            request: self.request.dup(),
            signer_pk: pk,
            added_timestamp: self.added_timestamp,
            confirmed_timestamp: self.confirmed_timestamp,
            is_executed: self.is_executed,
            cool_down: self.cool_down,
            num_confirm_ratio: self.num_confirm_ratio,
            mul_white_num: self.mul_white_num,
        }
    }
}

impl Dup for Confirmations {
    open spec fn eqv(&self, other: &Self) -> bool {
        self.keys_view() == other.keys_view()
    }

    fn dup(&self) -> (r: Self) {
        let mut out: Vec<Vec<u8>> = Vec::new();
        let mut i: usize = 0;
        while i < self.keys.len()
            invariant
                i <= self.keys.len(),
                out@.len() == i,
                forall|j: int| 0 <= j < i ==> #[trigger] out@[j]@ == self.keys@[j]@,
            decreases self.keys.len() - i,
        {
            let k = self.keys[i].dup_key();
            proof {
                assert(k@ == self.keys@[i as int]@);
            }
            out.push(k);
            i = i + 1;
        }
        let r = Confirmations { keys: out };
        assert(r.keys_view() =~= self.keys_view());
        r
    }
}

} // verus!
