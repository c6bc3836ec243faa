//! Platform fees.
use vstd::prelude::*;

use crate::contract::EscrowContract;
use crate::errors::EscrowError;
use crate::ledger::{Ledger, LedgerView, Outcome};
use crate::storage::ContractStorage;
use crate::store::Record;
use crate::types::{Address, EscrowFeeSnapshot, FeeTier, FeeTiers};

verus! {

/// Tiers that can be used: at least one, none with a negative amount or a rate
/// over the whole, and in strictly rising order.
pub open spec fn usable_tiers(t: Seq<FeeTier>) -> bool {
    &&& t.len() > 0
    &&& forall|i: int|
        0 <= i < t.len() ==> (#[trigger] t[i]).min_total_amount >= 0 && t[i].fee_bps <= 10_000
    &&& forall|i: int, j: int|
        0 <= i < j < t.len() ==> (#[trigger] t[i]).min_total_amount < (
        #[trigger] t[j]).min_total_amount
}

/// The tiers that hold unless the admin sets others.
pub open spec fn default_tiers() -> Seq<FeeTier> {
    seq![
        FeeTier { min_total_amount: 0, fee_bps: 200 },
        FeeTier { min_total_amount: 1_000, fee_bps: 150 },
        FeeTier { min_total_amount: 10_000, fee_bps: 100 },
    ]
}

/// The rate of the last tier whose amount is reached; none where none is.
pub open spec fn selected_bps(t: Seq<FeeTier>, amount: i128) -> u32
    decreases t.len(),
{
    if t.len() == 0 {
        0
    } else if amount >= t.last().min_total_amount {
        t.last().fee_bps
    } else {
        selected_bps(t.drop_last(), amount)
    }
}

/// A part of an amount, in basis points, rounded down.
pub open spec fn bps_of(amount: i128, bps: u32) -> int {
    (amount * bps) / 10_000
}

impl LedgerView {
    /// The tiers that hold.
    pub open spec fn fee_tiers(self) -> Seq<FeeTier> {
        match self.config.platform_fee_tiers {
            Some(t) => t,
            None => default_tiers(),
        }
    }

    /// The fee of an escrow with a total amount.
    pub open spec fn platform_fee(self, amount: i128) -> Result<EscrowFeeSnapshot, EscrowError> {
        let bps = selected_bps(self.fee_tiers(), amount);
        if !usable_tiers(self.fee_tiers()) {
            Err(EscrowError::E19)
        } else if amount * bps > i128::MAX {
            Err(EscrowError::E20)
        } else {
            Ok(
                EscrowFeeSnapshot {
                    fee_bps: bps,
                    fee_amount: bps_of(amount, bps) as i128,
                    collected: bps_of(amount, bps) == 0,
                },
            )
        }
    }

    /// Hands the fee that an escrow still owes to the treasury. The answer is
    /// what was handed over.
    pub open spec fn fee_settled(self, id: u64, token: Address) -> Outcome<i128> {
        let s = self.fee_snapshot(id);
        if s.collected || s.fee_amount == 0 {
            Ok((self, 0i128))
        } else {
            match self.config.platform_treasury {
                None => Err(EscrowError::E2),
                Some(treasury) => Ok(
                    (
                        self.paid(token, treasury, s.fee_amount).saved_fee_snapshot(
                            id,
                            EscrowFeeSnapshot { collected: true, ..s },
                        ),
                        s.fee_amount,
                    ),
                ),
            }
        }
    }
}

/// A rate that was selected is that of a tier whose amount is reached.
proof fn lemma_selected_bps(t: Seq<FeeTier>, amount: i128)
    requires
        usable_tiers(t) || t.len() == 0,
    ensures
        selected_bps(t, amount) <= 10_000,
        amount < 0 ==> selected_bps(t, amount) == 0,
    decreases t.len(),
{
    if t.len() > 0 {
        assert(t[t.len() - 1].min_total_amount >= 0);
        let d = t.drop_last();
        assert forall|i: int| 0 <= i < d.len() implies (#[trigger] d[i]).min_total_amount >= 0
            && d[i].fee_bps <= 10_000 by {
            assert(t[i].min_total_amount >= 0);
        }
        assert forall|i: int, j: int| 0 <= i < j < d.len() implies (
        #[trigger] d[i]).min_total_amount < (#[trigger] d[j]).min_total_amount by {
            assert(t[i].min_total_amount < t[j].min_total_amount);
        }
        lemma_selected_bps(d, amount);
    }
}

/// A fee is not negative, and no larger than an amount that is not negative.
pub proof fn lemma_fee_bounds(env: LedgerView, amount: i128)
    requires
        env.platform_fee(amount) is Ok,
    ensures
        env.platform_fee(amount)->Ok_0.fee_amount >= 0,
        amount >= 0 ==> env.platform_fee(amount)->Ok_0.fee_amount <= amount,
{
    let t = env.fee_tiers();
    lemma_selected_bps(t, amount);
    let bps = selected_bps(t, amount);
    if amount >= 0 {
        assert(0 <= amount * bps <= amount * 10_000) by (nonlinear_arith)
            requires
                amount >= 0,
                0 <= bps <= 10_000,
        ;
    } else {
        assert(amount * 0 == 0);
    }
}

impl EscrowContract {
    pub fn validate_fee_tiers(tiers: &FeeTiers) -> (r: Result<(), EscrowError>)
        ensures
            r == (if usable_tiers(tiers@) {
                Ok::<(), EscrowError>(())
            } else {
                Err(EscrowError::E19)
            }),
    {
        if tiers.items.len() == 0 {
            return Err(EscrowError::E19);
        }
        let ghost t = tiers@;
        let mut i: usize = 0;
        while i < tiers.items.len()
            invariant
                t == tiers@,
                i <= t.len(),
                forall|k: int|
                    0 <= k < i ==> (#[trigger] t[k]).min_total_amount >= 0 && t[k].fee_bps
                        <= 10_000,
                forall|k: int, j: int|
                    0 <= k < j < i ==> (#[trigger] t[k]).min_total_amount < (
                    #[trigger] t[j]).min_total_amount,
            decreases t.len() - i,
        {
            let tier = tiers.items[i];
            if tier.min_total_amount < 0 || tier.fee_bps > 10_000 {
                assert(t[i as int].min_total_amount < 0 || t[i as int].fee_bps > 10_000);
                return Err(EscrowError::E19);
            }
            if i > 0 {
                let prev = tiers.items[i - 1];
                if tier.min_total_amount <= prev.min_total_amount {
                    assert(t[i - 1].min_total_amount >= t[i as int].min_total_amount);
                    return Err(EscrowError::E19);
                }
                assert forall|k: int| 0 <= k < i implies (#[trigger] t[k]).min_total_amount
                    < t[i as int].min_total_amount by {
                    if k < i - 1 {
                        assert(t[k].min_total_amount < t[i - 1].min_total_amount);
                    }
                }
            }
            i = i + 1;
        }
        Ok(())
    }

    pub fn default_platform_fee_tiers() -> (r: FeeTiers)
        ensures
            r@ == default_tiers(),
    {
        let mut items: Vec<FeeTier> = Vec::new();
        items.push(FeeTier { min_total_amount: 0, fee_bps: 200 });
        items.push(FeeTier { min_total_amount: 1_000, fee_bps: 150 });
        items.push(FeeTier { min_total_amount: 10_000, fee_bps: 100 });
        assert(items@ =~= default_tiers());
        FeeTiers { items }
    }

    pub fn get_platform_fee_tiers(env: &Ledger) -> (r: FeeTiers)
        ensures
            r@ == env@.fee_tiers(),
    {
        match &env.config.platform_fee_tiers {
            Some(t) => t.dup(),
            None => Self::default_platform_fee_tiers(),
        }
    }

    pub fn calculate_platform_fee(
        env: &Ledger,
        total_amount: i128,
    ) -> (r: Result<EscrowFeeSnapshot, EscrowError>)
        ensures
            r == env@.platform_fee(total_amount),
    {
        let tiers = Self::get_platform_fee_tiers(env);
        Self::validate_fee_tiers(&tiers)?;
        let ghost t = tiers@;
        let mut bps: u32 = 0;
        let mut i: usize = 0;
        while i < tiers.items.len()
            invariant
                t == tiers@,
                i <= t.len(),
                bps == selected_bps(t.take(i as int), total_amount),
            decreases t.len() - i,
        {
            proof {
                assert(t.take(i + 1).drop_last() =~= t.take(i as int));
            }
            if total_amount >= tiers.items[i].min_total_amount {
                bps = tiers.items[i].fee_bps;
            }
            i = i + 1;
        }
        proof {
            assert(t.take(i as int) =~= t);
            lemma_selected_bps(t, total_amount);
            assert(total_amount >= 0 ==> total_amount * bps >= 0) by (nonlinear_arith)
                requires
                    bps >= 0,
            ;
            assert(total_amount * 0 == 0);
        }
        match total_amount.checked_mul(bps as i128) {
            None => Err(EscrowError::E20),
            Some(product) => {
                let fee_amount: i128 = product / 10_000;
                Ok(EscrowFeeSnapshot { fee_bps: bps, fee_amount, collected: fee_amount == 0 })
            },
        }
    }

    /// Hands over the fee that an escrow still owes.
    pub fn collect_platform_fee(
        env: &mut Ledger,
        escrow_id: u64,
        token: Address,
    ) -> (r: Result<i128, EscrowError>)
        ensures
            crate::ledger::answers(
                r,
                old(env)@,
                final(env)@,
                old(env)@.fee_settled(escrow_id, token),
            ),
    {
        let snapshot = ContractStorage::load_fee_snapshot(env, escrow_id);
        if snapshot.collected || snapshot.fee_amount == 0 {
            return Ok(0);
        }
        let treasury = match env.config.platform_treasury {
            None => {
                return Err(EscrowError::E2);
            },
            Some(t) => t,
        };
        env.pay(token, treasury, snapshot.fee_amount);
        let settled = EscrowFeeSnapshot {
            fee_bps: snapshot.fee_bps,
            fee_amount: snapshot.fee_amount,
            collected: true,
        };
        ContractStorage::save_fee_snapshot(env, escrow_id, &settled);
        Ok(snapshot.fee_amount)
    }
}

} // verus!
