//! Collecting rent.
use vstd::prelude::*;

use crate::constants::RENT_PERIOD_SECONDS;
use crate::errors::EscrowError;
use crate::events::Event;
use crate::ledger::{answers, answers_view, Ledger, LedgerView};
use crate::storage::{min, rent_periods, reserve, ContractStorage};
use crate::types::{Address, EscrowMeta, MetaView, PackedDataKey};

verus! {

/// Collecting rent moves the last collection forward by the periods that were
/// paid for, so the time at which the rent runs out stays the same.
pub proof fn lemma_rent_end_kept(env: LedgerView, m: MetaView, elapsed: int)
    requires
        m.rent_balance >= 0,
        elapsed >= 0,
    ensures
        ({
            let per = env.rent_per_period(m);
            let amount = min(per * elapsed, m.rent_balance as int);
            &&& per >= 1
            &&& 0 <= amount <= m.rent_balance
            &&& 0 <= amount / per <= elapsed
            &&& (m.rent_balance - amount) / per + amount / per == m.rent_balance as int / per
            &&& m.rent_balance >= per * elapsed ==> amount / per == elapsed
            &&& m.rent_balance < per * elapsed ==> amount / per == m.rent_balance as int / per
        }),
{
    let per = env.rent_per_period(m);
    let b = m.rent_balance as int;
    assert(0 <= per * elapsed) by (nonlinear_arith)
        requires
            per >= 1,
            elapsed >= 0,
    ;
    if b >= per * elapsed {
        vstd::arithmetic::div_mod::lemma_div_multiples_vanish(elapsed, per);
        vstd::arithmetic::div_mod::lemma_hoist_over_denominator(
            b - per * elapsed,
            elapsed,
            per as nat,
        );
        assert(b - per * elapsed + elapsed * per == b) by (nonlinear_arith);
        assert(per * elapsed / per == elapsed);
    } else {
        vstd::arithmetic::div_mod::lemma_div_is_ordered(b, per * elapsed, per);
        vstd::arithmetic::div_mod::lemma_div_multiples_vanish(elapsed, per);
        vstd::arithmetic::div_mod::lemma_div_pos_is_pos(b, per);
        assert((b - b) / per == 0) by {
            vstd::arithmetic::div_mod::lemma_div_basics(per);
        }
    }
}

/// Periods counted from a later collection.
proof fn lemma_periods_after(now: u64, last: u64, covered: int)
    requires
        0 <= covered <= rent_periods(now, last),
    ensures
        0 <= covered * RENT_PERIOD_SECONDS <= now - last || covered == 0,
        last + covered * RENT_PERIOD_SECONDS <= u64::MAX,
        rent_periods(now, (last + covered * RENT_PERIOD_SECONDS) as u64) == rent_periods(now, last)
            - covered,
{
    if now > last {
        let d = now - last;
        assert(covered * RENT_PERIOD_SECONDS <= d);
    }
}

/// An escrow whose rent was just settled owes nothing more in the same ledger.
pub proof fn lemma_settled_once(env: LedgerView, m: MetaView)
    requires
        env.settled(m) is Ok,
    ensures
        rent_periods(env.timestamp, env.settled(m)->Ok_0.1.0.last_rent_collection_at) == 0,
{
    let elapsed = rent_periods(env.timestamp, m.last_rent_collection_at);
    if elapsed > 0 {
        let per = env.rent_per_period(m);
        let q = m.rent_balance as int / per;
        assert(q >= elapsed);
        vstd::arithmetic::div_mod::lemma_fundamental_div_mod(m.rent_balance as int, per);
        assert(m.rent_balance >= per * elapsed) by (nonlinear_arith)
            requires
                m.rent_balance as int == per * q + m.rent_balance as int % per,
                0 <= m.rent_balance as int % per,
                q >= elapsed,
                per >= 1,
        ;
        assert(per * elapsed > 0) by (nonlinear_arith)
            requires
                per >= 1,
                elapsed > 0,
        ;
        lemma_rent_end_kept(env, m, elapsed);
        lemma_periods_after(env.timestamp, m.last_rent_collection_at, elapsed);
    }
}

impl ContractStorage {
    pub fn rent_expires_at(env: &Ledger, meta: &EscrowMeta) -> (r: u64)
        requires
            meta.rent_balance >= 0,
            env@.rent_end(meta@) <= u64::MAX,
        ensures
            r == env@.rent_end(meta@),
    {
        let per: i128 = Self::rent_due_per_period(env, meta);
        let covered: i128 = meta.rent_balance / per;
        proof {
            vstd::arithmetic::div_mod::lemma_div_pos_is_pos(meta.rent_balance as int, per as int);
        }
        meta.last_rent_collection_at + (covered as u64 + 1) * RENT_PERIOD_SECONDS
    }

    pub fn charge_rent_reserve(env: &mut Ledger, token: Address, payer: Address, amount: i128)
        ensures
            final(env)@ == (if amount <= 0 {
                old(env)@
            } else {
                old(env)@.charged(token, payer, amount)
            }),
    {
        if amount <= 0 {
            return ;
        }
        env.charge(token, payer, amount);
    }

    pub fn charge_entry_rent(
        env: &mut Ledger,
        meta: &mut EscrowMeta,
        payer: Address,
        entries: i128,
    ) -> (r: Result<i128, EscrowError>)
        requires
            0 < entries <= u32::MAX,
        ensures
            old(meta).rent_balance + reserve(entries as int) > i128::MAX ==> {
                r == Err::<i128, EscrowError>(EscrowError::E20)
            },
            old(meta).rent_balance + reserve(entries as int) <= i128::MAX ==> {
                &&& r == Ok::<i128, EscrowError>(reserve(entries as int) as i128)
                &&& final(env)@ == old(env)@.charged(
                    old(meta).token,
                    payer,
                    reserve(entries as int) as i128,
                )
                &&& final(meta)@ == (MetaView {
                    rent_balance: (old(meta).rent_balance + reserve(entries as int)) as i128,
                    ..old(meta)@
                })
            },
    {
        let amount: i128 = Self::reserve_for_entries(entries);
        Self::charge_rent_reserve(env, meta.token, payer, amount);
        match meta.rent_balance.checked_add(amount) {
            None => Err(EscrowError::E20),
            Some(sum) => {
                meta.rent_balance = sum;
                Ok(amount)
            },
        }
    }

    pub fn collect_rent_due(
        env: &mut Ledger,
        meta: &mut EscrowMeta,
    ) -> (r: Result<i128, EscrowError>)
        requires
            rent_periods(old(env)@.timestamp, old(meta).last_rent_collection_at) > 0 ==> {
                old(meta).rent_balance >= 0
            },
            old(env)@.rent_fits(old(meta)@),
        ensures
            match old(env)@.rent_collected(old(meta)@) {
                Err(e) => {
                    &&& r == Err::<i128, EscrowError>(e)
                    &&& final(env)@ == old(env)@
                    &&& final(meta)@ == old(meta)@
                },
                Ok((post, (m, amount))) => {
                    &&& r == Ok::<i128, EscrowError>(amount)
                    &&& final(env)@ == post
                    &&& final(meta)@ == m
                },
            },
    {
        let now: u64 = env.timestamp;
        let last: u64 = meta.last_rent_collection_at;
        if now <= last {
            return Ok(0);
        }
        let elapsed: u64 = (now - last) / RENT_PERIOD_SECONDS;
        if elapsed == 0 {
            return Ok(0);
        }
        let per: i128 = Self::rent_due_per_period(env, meta);
        let ghost before = env@;
        proof {
            lemma_rent_end_kept(env@, meta@, elapsed as int);
            assert(per * elapsed <= 0x1_0000_0004 * 0x1_0000_0000_0000_0000) by (nonlinear_arith)
                requires
                    1 <= per <= 0x1_0000_0003,
                    0 <= elapsed < 0x1_0000_0000_0000_0000,
            ;
        }
        let due: i128 = per * elapsed as i128;
        let amount: i128 = if due < meta.rent_balance { due } else { meta.rent_balance };
        if amount > 0 {
            let admin = match env.config.admin {
                None => {
                    return Err(EscrowError::E2);
                },
                Some(admin) => admin,
            };
            env.pay(meta.token, admin, amount);
        }
        let covered: i128 = amount / per;
        proof {
            lemma_periods_after(now, last, covered as int);
            assert(covered as u64 == covered);
        }
        meta.rent_balance = meta.rent_balance - amount;
        meta.last_rent_collection_at = last + covered as u64 * RENT_PERIOD_SECONDS;
        proof {
            assert(env@.rent_per_period(meta@) == per);
            assert(env@.rent_end(meta@) == before.rent_end(old(meta)@));
        }
        let expires_at: u64 = Self::rent_expires_at(env, meta);
        env.publish(
            Event::RentCollected {
                escrow_id: meta.escrow_id,
                collected: amount,
                rent_balance: meta.rent_balance,
                expires_at,
            },
        );
        Ok(amount)
    }

    pub fn settle_rent_for_access(
        env: &mut Ledger,
        meta: &mut EscrowMeta,
    ) -> (r: Result<i128, EscrowError>)
        requires
            old(env)@.rent_fits(old(meta)@),
        ensures
            match old(env)@.settled(old(meta)@) {
                Err(e) => r == Err::<i128, EscrowError>(e) && final(env)@ == old(env)@,
                Ok((post, (m, amount))) => {
                    &&& r == Ok::<i128, EscrowError>(amount)
                    &&& final(env)@ == post
                    &&& final(meta)@ == m
                },
            },
    {
        if Self::rent_has_expired(env, meta) {
            return Err(EscrowError::E8);
        }
        proof {
            let per = env@.rent_per_period(meta@);
            if meta.rent_balance < 0 {
                vstd::arithmetic::div_mod::lemma_fundamental_div_mod(meta.rent_balance as int, per);
                let q = meta.rent_balance as int / per;
                assert(q < 0) by (nonlinear_arith)
                    requires
                        meta.rent_balance as int == per * q + (meta.rent_balance as int % per),
                        0 <= meta.rent_balance as int % per,
                        meta.rent_balance < 0,
                        per >= 1,
                ;
            }
        }
        let amount: i128 = Self::collect_rent_due(env, meta)?;
        Self::save_escrow_meta(env, meta);
        Ok(amount)
    }

    pub fn load_escrow_meta_with_rent(
        env: &mut Ledger,
        escrow_id: u64,
    ) -> (r: Result<EscrowMeta, EscrowError>)
        requires
            old(env)@.rent_ok(escrow_id),
        ensures
            answers_view(r, old(env)@, final(env)@, old(env)@.accessed(escrow_id)),
    {
        let mut meta = Self::load_escrow_meta(env, escrow_id)?;
        Self::settle_rent_for_access(env, &mut meta)?;
        Ok(meta)
    }

    pub fn ensure_live_escrow(env: &mut Ledger, escrow_id: u64) -> (r: Result<(), EscrowError>)
        requires
            old(env)@.rent_ok(escrow_id),
        ensures
            match old(env)@.accessed(escrow_id) {
                Err(e) => r == Err::<(), EscrowError>(e) && final(env)@ == old(env)@,
                Ok((post, _)) => r == Ok::<(), EscrowError>(()) && final(env)@ == post,
            },
    {
        let _meta = Self::load_escrow_meta_with_rent(env, escrow_id)?;
        Ok(())
    }

    /// Gives back what an escrow has left and removes its entries.
    pub fn expire_escrow(env: &mut Ledger, meta: &EscrowMeta) -> (r: Result<(), EscrowError>)
        ensures
            answers(r, old(env)@, final(env)@, old(env)@.expired(meta@)),
    {
        let refund: i128 = match meta.remaining_balance.checked_add(meta.rent_balance) {
            None => {
                return Err(EscrowError::E20);
            },
            Some(sum) => sum,
        };
        if refund > 0 {
            env.pay(meta.token, meta.client, refund);
        }
        let ghost paid = env@;
        let mut mid: u32 = 0;
        while mid < meta.milestone_count
            invariant
                mid <= meta.milestone_count,
                env@ == paid.cleared(meta.escrow_id, mid as nat),
            decreases meta.milestone_count - mid,
        {
            env.book.milestones.remove(PackedDataKey::Milestone(meta.escrow_id, mid));
            mid = mid + 1;
        }
        env.book.recurring.remove(PackedDataKey::RecurringConfig(meta.escrow_id));
        Self::remove_cancellation_request(env, meta.escrow_id);
        Self::remove_slash_record(env, meta.escrow_id);
        env.book.metas.remove(PackedDataKey::EscrowMeta(meta.escrow_id));
        env.publish(
            Event::RentExpired {
                escrow_id: meta.escrow_id,
                refund,
                remaining_balance: meta.remaining_balance,
            },
        );
        Ok(())
    }
}

} // verus!
