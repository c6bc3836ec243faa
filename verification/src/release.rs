//! What stands between an approved milestone and its money.
use vstd::prelude::*;

use crate::contract::EscrowContract;
use crate::errors::EscrowError;
use crate::events::Event;
use crate::index::listed;
use crate::ledger::{answers, Ledger, LedgerView, Outcome};
use crate::rent::lemma_settled_once;
use crate::storage::ContractStorage;
use crate::types::{
    Address, EscrowMeta, EscrowStatus, MetaView, Milestone, MilestoneView, OptionalTimelock,
    MS_APPROVED, MS_RELEASED,
};

verus! {

/// A quotient rounded toward zero.
pub open spec fn toward_zero(a: int, b: int) -> int {
    if a >= 0 {
        a / b
    } else {
        -((-a) / b)
    }
}

/// How far apart two numbers are.
pub open spec fn distance(a: int, b: int) -> int {
    if a > b {
        a - b
    } else {
        b - a
    }
}

impl LedgerView {
    /// The price has not moved further than an escrow tolerates, as far as it
    /// asks for that.
    pub open spec fn slippage_check(self, m: MetaView) -> Result<(), EscrowError> {
        let reference = m.slippage_reference_price;
        let scaled = reference * m.slippage_bps;
        if m.slippage_bps == 0 {
            Ok(())
        } else {
            match self.price(m.token) {
                Err(e) => Err(e),
                Ok(current) => if reference == 0 {
                    Ok(())
                } else if scaled > i128::MAX || scaled < i128::MIN {
                    Err(EscrowError::E86)
                } else if distance(current as int, reference as int) > toward_zero(scaled, 10_000) {
                    Err(EscrowError::E86)
                } else {
                    Ok(())
                },
            }
        }
    }

    /// The current price and the reference price are within range of each other.
    pub open spec fn slippage_fits(self, m: MetaView) -> bool {
        m.slippage_bps != 0 && self.price(m.token) is Ok ==> distance(
            self.price(m.token)->Ok_0 as int,
            m.slippage_reference_price as int,
        ) <= i128::MAX
    }

    /// The same for an escrow by its id, if there is one.
    pub open spec fn slippage_ok(self, id: u64) -> bool {
        self.has_meta(id) ==> self.slippage_fits(self.meta(id))
    }

    /// Refuses before the lock time, and tells observers after it.
    pub open spec fn unlocked(self, id: u64, lock_time: Option<u64>) -> Outcome<()> {
        match lock_time {
            None => Ok((self, ())),
            Some(lt) => if self.timestamp < lt {
                Err(EscrowError::E28)
            } else {
                Ok((self.told(Event::LockTimeExpired { escrow_id: id, lock_time: lt }), ()))
            },
        }
    }

    /// The state after the lock time was looked at.
    pub open spec fn lock_seen(self, id: u64, lock_time: Option<u64>) -> LedgerView {
        match self.unlocked(id, lock_time) {
            Ok((post, _)) => post,
            Err(_) => self,
        }
    }

    /// Refuses before the end of the timelock, and tells observers after it.
    pub open spec fn timelock_over(self, id: u64, timelock: OptionalTimelock) -> Outcome<()> {
        match timelock {
            None => Ok((self, ())),
            Some(t) => if t.start_ledger + t.duration_ledger > u64::MAX {
                Err(EscrowError::E51)
            } else if self.timestamp < t.start_ledger + t.duration_ledger {
                Err(EscrowError::E53)
            } else {
                Ok((self.told(Event::TimelockReleased { escrow_id: id, at: self.timestamp }), ()))
            },
        }
    }

    /// The state after the timelock was looked at.
    pub open spec fn timelock_seen(self, id: u64, timelock: OptionalTimelock) -> LedgerView {
        match self.timelock_over(id, timelock) {
            Ok((post, _)) => post,
            Err(_) => self,
        }
    }

    /// The milestone that another one waits for is approved.
    pub open spec fn dependency_check(self, id: u64, m: MilestoneView) -> Result<(), EscrowError> {
        match m.depends_on {
            None => Ok(()),
            Some(p) => if !self.has_milestone(id, p) {
                Err(EscrowError::E13)
            } else if self.milestone(id, p).status != MS_APPROVED && self.milestone(id, p).status
                != MS_RELEASED {
                Err(EscrowError::E14)
            } else {
                Ok(())
            },
        }
    }

    /// Tells observers of each of the first `n` milestones that waits for
    /// another.
    pub open spec fn waiting_told(self, id: u64, prereq: u32, n: nat) -> LedgerView
        decreases n,
    {
        if n == 0 {
            self
        } else {
            let before = self.waiting_told(id, prereq, (n - 1) as nat);
            let mid = (n - 1) as u32;
            if self.has_milestone(id, mid) && self.milestone(id, mid).depends_on == Some(prereq) {
                before.told(
                    Event::MilestoneUnlocked {
                        escrow_id: id,
                        milestone_id: mid,
                        prerequisite: prereq,
                    },
                )
            } else {
                before
            }
        }
    }

    /// Tells observers of the milestones that a milestone unlocks.
    pub open spec fn dependents_told(self, id: u64, prereq: u32) -> LedgerView {
        match self.accessed(id) {
            Err(_) => self,
            Ok((post, m)) => post.waiting_told(id, prereq, m.milestone_count as nat),
        }
    }

    /// The state after an active escrow was completed and listed as such.
    pub open spec fn finished(self, id: u64, actor: Option<Address>) -> LedgerView {
        self.stepped(id, EscrowStatus::Active, EscrowStatus::Completed, actor).moved(
            id,
            EscrowStatus::Active,
            EscrowStatus::Completed,
        ).told(Event::EscrowCompleted { escrow_id: id })
    }
}

/// Telling observers leaves the entries alone.
pub proof fn lemma_waiting_told(env: LedgerView, id: u64, prereq: u32, n: nat)
    ensures
        env.waiting_told(id, prereq, n) == (LedgerView {
            log: env.waiting_told(id, prereq, n).log,
            ..env
        }),
    decreases n,
{
    if n > 0 {
        lemma_waiting_told(env, id, prereq, (n - 1) as nat);
    }
}

/// Looking an escrow up again is possible whenever it was possible once.
pub proof fn lemma_access_again(env: LedgerView, id: u64)
    requires
        env.rent_ok(id),
        env.accessed(id) is Ok,
    ensures
        env.accessed(id)->Ok_0.0.rent_ok(id),
        env.accessed(id)->Ok_0.0.has_meta(id),
{
    lemma_settled_once(env, env.meta(id));
}

/// Telling observers of dependents keeps what was possible possible.
pub proof fn lemma_dependents_told(env: LedgerView, id: u64, prereq: u32)
    requires
        env.rent_ok(id),
    ensures
        env.dependents_told(id, prereq).rent_ok(id),
        env.dependents_told(id, prereq).book.by_status == env.book.by_status,
        env.dependents_told(id, prereq).book.milestones == env.book.milestones,
        env.dependents_told(id, prereq).book.history == env.book.history,
        env.dependents_told(id, prereq).timestamp == env.timestamp,
        env.dependents_told(id, prereq).contract == env.contract,
        env.dependents_told(id, prereq).config == env.config,
        env.dependents_told(id, prereq).prices == env.prices,
{
    if env.accessed(id) is Ok {
        lemma_access_again(env, id);
        let (post, m) = env.accessed(id)->Ok_0;
        lemma_waiting_told(post, id, prereq, m.milestone_count as nat);
    }
}

impl ContractStorage {
    /// Refuses a release when the price has moved too far.
    pub fn check_slippage(env: &Ledger, meta: &EscrowMeta) -> (r: Result<(), EscrowError>)
        requires
            env@.slippage_fits(meta@),
        ensures
            r == env@.slippage_check(meta@),
    {
        if meta.slippage_bps == 0 {
            return Ok(());
        }
        let current: i128 = env.price_of(meta.token)?;
        let reference: i128 = meta.slippage_reference_price;
        if reference == 0 {
            return Ok(());
        }
        let scaled: i128 = match reference.checked_mul(meta.slippage_bps as i128) {
            None => {
                return Err(EscrowError::E86);
            },
            Some(s) => s,
        };
        let actual: i128 = if current > reference {
            current - reference
        } else {
            reference - current
        };
        let tolerated: i128 = scaled / 10_000;
        if actual > tolerated {
            return Err(EscrowError::E86);
        }
        Ok(())
    }

    /// Refuses before the lock time.
    pub fn check_lock_time_expired(env: &mut Ledger, escrow_id: u64, lock_time: Option<u64>) -> (r:
        Result<(), EscrowError>)
        ensures
            answers(r, old(env)@, final(env)@, old(env)@.unlocked(escrow_id, lock_time)),
    {
        if let Some(lt) = lock_time {
            if env.timestamp < lt {
                return Err(EscrowError::E28);
            }
            env.publish(Event::LockTimeExpired { escrow_id, lock_time: lt });
        }
        Ok(())
    }

    /// Refuses before the end of the timelock.
    pub fn check_timelock_expired(
        env: &mut Ledger,
        escrow_id: u64,
        timelock: OptionalTimelock,
    ) -> (r: Result<(), EscrowError>)
        ensures
            answers(r, old(env)@, final(env)@, old(env)@.timelock_over(escrow_id, timelock)),
            final(env)@ == old(env)@.timelock_seen(escrow_id, timelock),
    {
        if let Some(t) = timelock {
            let now: u64 = env.timestamp;
            let expiry: u64 = match t.start_ledger.checked_add(t.duration_ledger) {
                None => {
                    return Err(EscrowError::E51);
                },
                Some(e) => e,
            };
            if now < expiry {
                return Err(EscrowError::E53);
            }
            env.publish(Event::TimelockReleased { escrow_id, at: now });
        }
        Ok(())
    }
}

impl EscrowContract {
    /// Checks that the milestone that another one waits for is approved.
    pub fn require_dependency_satisfied(
        env: &Ledger,
        escrow_id: u64,
        milestone: &Milestone,
    ) -> (r: Result<(), EscrowError>)
        ensures
            r == env@.dependency_check(escrow_id, milestone@),
    {
        if let Some(p) = milestone.depends_on {
            let prereq = ContractStorage::load_milestone(env, escrow_id, p)?;
            if prereq.status != MS_APPROVED && prereq.status != MS_RELEASED {
                return Err(EscrowError::E14);
            }
        }
        Ok(())
    }

    /// Tells observers of the milestones that a milestone unlocks.
    pub fn emit_dependents_unlocked(env: &mut Ledger, escrow_id: u64, prereq_id: u32)
        requires
            old(env)@.rent_ok(escrow_id),
        ensures
            final(env)@ == old(env)@.dependents_told(escrow_id, prereq_id),
    {
        let meta = match ContractStorage::load_escrow_meta_with_rent(env, escrow_id) {
            Ok(m) => m,
            Err(_) => {
                return ;
            },
        };
        let ghost base = env@;
        let mut mid: u32 = 0;
        while mid < meta.milestone_count
            invariant
                mid <= meta.milestone_count,
                env@ == base.waiting_told(escrow_id, prereq_id, mid as nat),
            decreases meta.milestone_count - mid,
        {
            proof {
                lemma_waiting_told(base, escrow_id, prereq_id, mid as nat);
            }
            match ContractStorage::load_milestone(env, escrow_id, mid) {
                Ok(m) => {
                    if let Some(p) = m.depends_on {
                        if p == prereq_id {
                            env.publish(
                                Event::MilestoneUnlocked {
                                    escrow_id,
                                    milestone_id: mid,
                                    prerequisite: prereq_id,
                                },
                            );
                        }
                    }
                },
                Err(_) => {},
            }
            mid = mid + 1;
        }
    }

    /// Completes an active escrow.
    pub(crate) fn finish(env: &mut Ledger, escrow_id: u64, actor: Option<Address>)
        requires
            listed(old(env)@.book.by_status, EscrowStatus::Completed).len() < u32::MAX,
        ensures
            final(env)@ == old(env)@.finished(escrow_id, actor),
    {
        ContractStorage::record_state_change(
            env,
            escrow_id,
            EscrowStatus::Active,
            EscrowStatus::Completed,
            actor,
        );
        ContractStorage::move_status(
            env,
            escrow_id,
            EscrowStatus::Active,
            EscrowStatus::Completed,
        );
        env.publish(Event::EscrowCompleted { escrow_id });
    }
}

} // verus!
