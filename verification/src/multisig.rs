//! Who may approve, and with what weight.
use vstd::prelude::*;

use crate::constants::MAX_BUYER_SIGNERS;
use crate::contract::EscrowContract;
use crate::errors::EscrowError;
use crate::types::{
    Address, ApprovalRecord, EscrowMeta, MetaView, Milestone, MultisigConfig, MultisigView,
};

verus! {

/// The weight of an approver: that of the first place where the list of signers
/// names it. Nothing for who is not on the list.
pub open spec fn weight_of(m: MetaView, who: Address) -> Option<u32> {
    match m.buyer_signers.index_of_first(who.id) {
        None => None,
        Some(i) => Some(
            if i < m.multisig_weights.len() {
                m.multisig_weights[i]
            } else {
                0u32
            },
        ),
    }
}

/// The weight that a signature adds.
pub open spec fn signature_weight(m: MetaView, who: Address) -> u32 {
    match weight_of(m, who) {
        Some(w) => w,
        None => 0,
    }
}

/// The weights of all signatures together.
pub open spec fn accrued(m: MetaView, approvals: Seq<ApprovalRecord>) -> nat
    decreases approvals.len(),
{
    if approvals.len() == 0 {
        0
    } else {
        accrued(m, approvals.drop_last()) + signature_weight(m, approvals.last().signer) as nat
    }
}

/// Whether somebody has signed.
pub open spec fn has_signed(approvals: Seq<ApprovalRecord>, who: Address) -> bool {
    exists|i: int| 0 <= i < approvals.len() && (#[trigger] approvals[i]).signer == who
}

/// The sum of a list of weights.
pub open spec fn weight_sum(w: Seq<u32>) -> nat
    decreases w.len(),
{
    if w.len() == 0 {
        0
    } else {
        weight_sum(w.drop_last()) + w.last() as nat
    }
}

/// No approver occurs twice.
pub open spec fn no_repeats(s: Seq<u64>) -> bool {
    forall|i: int, j: int| 0 <= i < j < s.len() ==> (#[trigger] s[i]) != (#[trigger] s[j])
}

/// A policy that can be met, and by everybody on it only once.
pub open spec fn workable(c: MultisigView) -> bool {
    &&& c.weights.len() == c.approvers.len()
    &&& c.threshold > 0
    &&& no_repeats(c.approvers)
    &&& forall|i: int| 0 <= i < c.weights.len() ==> (#[trigger] c.weights[i]) > 0
    &&& weight_sum(c.weights) <= u32::MAX
    &&& c.threshold <= weight_sum(c.weights)
}

/// No approver reaches the threshold alone.
pub open spec fn needs_several(c: MultisigView) -> bool {
    forall|i: int| 0 <= i < c.weights.len() ==> (#[trigger] c.weights[i]) < c.threshold
}

/// What a check of a policy says.
pub open spec fn policy_check(c: MultisigView) -> Result<bool, EscrowError> {
    if c.approvers.len() > MAX_BUYER_SIGNERS {
        Err(EscrowError::MultisigTooManySigners)
    } else if !workable(c) {
        Err(EscrowError::MultisigInvalidConfig)
    } else {
        Ok(needs_several(c))
    }
}

/// A list's sum is at least that of its beginning.
pub proof fn lemma_weight_sum_prefix(w: Seq<u32>, n: int)
    requires
        0 <= n <= w.len(),
    ensures
        weight_sum(w.take(n)) <= weight_sum(w),
    decreases w.len(),
{
    if n < w.len() {
        lemma_weight_sum_prefix(w.drop_last(), n);
        assert(w.drop_last().take(n) =~= w.take(n));
    } else {
        assert(w.take(n) =~= w);
    }
}

/// The signatures' weight is at least that of the first of them.
pub proof fn lemma_accrued_prefix(m: MetaView, a: Seq<ApprovalRecord>, n: int)
    requires
        0 <= n <= a.len(),
    ensures
        accrued(m, a.take(n)) <= accrued(m, a),
    decreases a.len(),
{
    if n < a.len() {
        lemma_accrued_prefix(m, a.drop_last(), n);
        assert(a.drop_last().take(n) =~= a.take(n));
    } else {
        assert(a.take(n) =~= a);
    }
}

/// One signature more adds its weight.
pub proof fn lemma_accrued_push(m: MetaView, a: Seq<ApprovalRecord>, x: ApprovalRecord)
    ensures
        accrued(m, a.push(x)) == accrued(m, a) + signature_weight(m, x.signer),
{
    assert(a.push(x).drop_last() =~= a);
}

impl EscrowContract {
    /// The weight of an approver, if it is one.
    pub fn approver_weight(meta: &EscrowMeta, who: Address) -> (r: Option<u32>)
        ensures
            r == weight_of(meta@, who),
    {
        let n: u32 = meta.buyer_signers.len();
        let mut i: u32 = 0;
        proof {
            meta@.buyer_signers.index_of_first_ensures(who.id);
        }
        while i < n
            invariant
                n == meta@.buyer_signers.len(),
                i <= n,
                forall|j: int| 0 <= j < i ==> meta@.buyer_signers[j] != who.id,
            decreases n - i,
        {
            match meta.buyer_signers.get(i) {
                Some(x) => {
                    if x == who.id {
                        proof {
                            meta@.buyer_signers.index_of_first_ensures(who.id);
                            assert(meta@.buyer_signers[i as int] == who.id);
                            assert(meta@.buyer_signers.contains(who.id));
                            let k = meta@.buyer_signers.index_of_first(who.id)->Some_0;
                            assert(k == i);
                        }
                        return match meta.multisig_weights.get(i) {
                            Some(w) => Some(w),
                            None => Some(0),
                        };
                    }
                },
                None => {},
            }
            i = i + 1;
        }
        proof {
            meta@.buyer_signers.index_of_first_ensures(who.id);
        }
        None
    }

    /// The weight of all signatures under a milestone.
    pub fn accrued_approval_weight(
        meta: &EscrowMeta,
        milestone: &Milestone,
    ) -> (r: Result<u32, EscrowError>)
        ensures
            r == (if accrued(meta@, milestone@.approvals) > u32::MAX {
                Err(EscrowError::E20)
            } else {
                Ok::<u32, EscrowError>(accrued(meta@, milestone@.approvals) as u32)
            }),
    {
        let mut total: u32 = 0;
        let mut i: usize = 0;
        let ghost a = milestone@.approvals;
        while i < milestone.approvals.items.len()
            invariant
                a == milestone@.approvals,
                i <= a.len(),
                total == accrued(meta@, a.take(i as int)),
            decreases a.len() - i,
        {
            let signer = milestone.approvals.items[i].signer;
            let weight: u32 = match Self::approver_weight(meta, signer) {
                Some(w) => w,
                None => 0,
            };
            proof {
                assert(a.take(i + 1).drop_last() =~= a.take(i as int));
                lemma_accrued_prefix(meta@, a, i + 1);
            }
            match total.checked_add(weight) {
                None => {
                    return Err(EscrowError::E20);
                },
                Some(t) => {
                    total = t;
                },
            }
            i = i + 1;
        }
        assert(a.take(i as int) =~= a);
        Ok(total)
    }

    /// Whether somebody has signed a milestone.
    pub fn signed_by(milestone: &Milestone, who: Address) -> (r: bool)
        ensures
            r == has_signed(milestone@.approvals, who),
    {
        let mut i: usize = 0;
        let ghost a = milestone@.approvals;
        while i < milestone.approvals.items.len()
            invariant
                a == milestone@.approvals,
                i <= a.len(),
                forall|j: int| 0 <= j < i ==> (#[trigger] a[j]).signer != who,
            decreases a.len() - i,
        {
            if milestone.approvals.items[i].signer == who {
                assert(a[i as int].signer == who);
                return true;
            }
            i = i + 1;
        }
        false
    }

    /// Checks a policy: it has to be one that can be met and that names nobody
    /// twice. The answer says whether it takes more than one signer.
    pub fn validate_multisig_config(config: &MultisigConfig) -> (r: Result<bool, EscrowError>)
        ensures
            r == policy_check(config@),
    {
        let n: u32 = config.approvers.len();
        if n > MAX_BUYER_SIGNERS {
            return Err(EscrowError::MultisigTooManySigners);
        }
        if config.weights.len() != n {
            return Err(EscrowError::MultisigInvalidConfig);
        }
        if config.threshold == 0 {
            return Err(EscrowError::MultisigInvalidConfig);
        }
        let ghost c = config@;
        let mut total: u32 = 0;
        let mut max: u32 = 0;
        let mut i: u32 = 0;
        while i < n
            invariant
                c == config@,
                n == c.approvers.len(),
                n == c.weights.len(),
                n <= MAX_BUYER_SIGNERS,
                i <= n,
                forall|a: int, b: int|
                    0 <= a < i && a < b < n ==> (#[trigger] c.approvers[a]) != (
                    #[trigger] c.approvers[b]),
                forall|a: int| 0 <= a < i ==> 0 < (#[trigger] c.weights[a]) <= max,
                max == 0 || exists|a: int| 0 <= a < i && (#[trigger] c.weights[a]) == max,
                total == weight_sum(c.weights.take(i as int)),
            decreases n - i,
        {
            let approver: u64 = match config.approvers.get(i) {
                None => {
                    return Err(EscrowError::MultisigInvalidConfig);
                },
                Some(x) => x,
            };
            let mut j: u32 = i + 1;
            while j < n
                invariant
                    c == config@,
                    n == c.approvers.len(),
                    n <= MAX_BUYER_SIGNERS,
                    i < j <= n,
                    approver == c.approvers[i as int],
                    forall|b: int| i < b < j ==> approver != (#[trigger] c.approvers[b]),
                decreases n - j,
            {
                match config.approvers.get(j) {
                    Some(x) => {
                        if x == approver {
                            assert(c.approvers[i as int] == c.approvers[j as int]);
                            return Err(EscrowError::MultisigInvalidConfig);
                        }
                    },
                    None => {},
                }
                j = j + 1;
            }
            let weight: u32 = match config.weights.get(i) {
                None => {
                    return Err(EscrowError::MultisigInvalidConfig);
                },
                Some(x) => x,
            };
            if weight == 0 {
                assert(c.weights[i as int] == 0);
                return Err(EscrowError::MultisigInvalidConfig);
            }
            proof {
                assert(c.weights.take(i + 1).drop_last() =~= c.weights.take(i as int));
                lemma_weight_sum_prefix(c.weights, i + 1);
            }
            match total.checked_add(weight) {
                None => {
                    return Err(EscrowError::MultisigInvalidConfig);
                },
                Some(t) => {
                    total = t;
                },
            }
            if weight > max {
                max = weight;
                assert(c.weights[i as int] == max);
            }
            i = i + 1;
        }
        assert(c.weights.take(n as int) =~= c.weights);
        if config.threshold > total {
            return Err(EscrowError::MultisigInvalidConfig);
        }
        Ok(config.threshold > max)
    }
}

} // verus!
