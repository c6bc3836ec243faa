//! Adding, submitting, approving and rejecting milestones.
use vstd::prelude::*;

use crate::constants::{
    AUTO_DEADLINE_EXTENSION_SECONDS, MAX_ESCROW_AMOUNT, MAX_MILESTONES, MAX_STRING_LEN,
};
use crate::contract::EscrowContract;
use crate::errors::EscrowError;
use crate::events::Event;
use crate::index::listed;
use crate::ledger::{answers, attempts, Ledger, LedgerView, Outcome};
use crate::multisig::{accrued, has_signed, weight_of};
use crate::release::{lemma_access_again, lemma_dependents_told};
use crate::storage::{reserve, ContractStorage};
use crate::store::Record;
use crate::types::{
    Address, ApprovalRecord, Approvals, EscrowMeta, EscrowStatus, Hash32, MetaView, Milestone,
    MilestoneView, OptionalPriceCondition, PriceCondition, PriceDirection, Text, MS_APPROVED,
    MS_PENDING, MS_REJECTED, MS_RELEASED, MS_SUBMITTED,
};

verus! {

/// A milestone that nobody has worked on.
pub open spec fn fresh_milestone(
    id: u32,
    title: Seq<u8>,
    description_hash: Hash32,
    amount: i128,
    price_condition: OptionalPriceCondition,
) -> MilestoneView {
    MilestoneView {
        id,
        title,
        description_hash,
        amount,
        status: MS_PENDING,
        submitted_at: None,
        resolved_at: None,
        approvals: Seq::empty(),
        rejection_reason: None,
        price_condition,
        depends_on: None,
    }
}

/// A counter that does not go below zero.
pub open spec fn one_less(n: u32) -> u32 {
    if n == 0 {
        0
    } else {
        (n - 1) as u32
    }
}

/// A price is on the side of the target that the condition asks for.
pub open spec fn condition_met(c: PriceCondition, price: i128) -> bool {
    match c.direction {
        PriceDirection::Above => price >= c.target_price_usd,
        PriceDirection::Below => price <= c.target_price_usd,
    }
}

impl LedgerView {
    /// How many milestones an escrow may have.
    pub open spec fn milestone_cap(self) -> u32 {
        match self.config.max_milestones {
            Some(n) => n,
            None => MAX_MILESTONES,
        }
    }

    /// Adds a milestone to an escrow; its rent is paid in advance. The answer is
    /// the milestone's id. A title that is too long is refused with `too_long`.
    /// The milestone may wait for a price.
    pub open spec fn milestone_added(
        self,
        caller: Address,
        id: u64,
        title: Seq<u8>,
        description_hash: Hash32,
        amount: i128,
        condition: OptionalPriceCondition,
        too_long: EscrowError,
    ) -> Outcome<u32> {
        if amount <= 0 {
            Err(EscrowError::E17)
        } else if amount > MAX_ESCROW_AMOUNT {
            Err(EscrowError::E85)
        } else if title.len() > MAX_STRING_LEN {
            Err(too_long)
        } else {
            match self.accessed(id) {
                Err(e) => Err(e),
                Ok((env, m)) => if caller != m.client {
                    Err(EscrowError::E5)
                } else if m.status != EscrowStatus::Active {
                    Err(EscrowError::E9)
                } else if m.allocated_amount + amount > m.total_amount
                    || m.allocated_amount + amount > m.allotted_amount {
                    Err(EscrowError::E15)
                } else if m.milestone_count >= self.milestone_cap() {
                    Err(EscrowError::E16)
                } else if m.rent_balance + reserve(1) > i128::MAX {
                    Err(EscrowError::E20)
                } else {
                    let mid = m.milestone_count;
                    let post = MetaView {
                        milestone_count: (mid + 1) as u32,
                        allocated_amount: (m.allocated_amount + amount) as i128,
                        rent_balance: (m.rent_balance + reserve(1)) as i128,
                        ..m
                    };
                    Ok(
                        (
                            env.charged(m.token, caller, reserve(1) as i128).saved_milestone(
                                id,
                                fresh_milestone(mid, title, description_hash, amount, condition),
                            ).saved_meta(post).told(
                                Event::MilestoneAdded { escrow_id: id, milestone_id: mid, amount },
                            ),
                            mid,
                        ),
                    )
                },
            }
        }
    }

    /// Adds a milestone on request.
    pub open spec fn add_milestone(
        self,
        caller: Address,
        id: u64,
        title: Seq<u8>,
        description_hash: Hash32,
        amount: i128,
    ) -> Outcome<u32> {
        if self.config.paused {
            Err(EscrowError::E31)
        } else if self.is_frozen(id) {
            Err(EscrowError::E61)
        } else {
            self.authed(caller).milestone_added(
                caller,
                id,
                title,
                description_hash,
                amount,
                None,
                EscrowError::E19,
            )
        }
    }

    /// Adds a milestone that a price releases.
    pub open spec fn add_price_milestone(
        self,
        caller: Address,
        id: u64,
        title: Seq<u8>,
        description_hash: Hash32,
        amount: i128,
        condition: PriceCondition,
    ) -> Outcome<u32> {
        if self.config.paused {
            Err(EscrowError::E31)
        } else if self.is_frozen(id) {
            Err(EscrowError::E61)
        } else {
            self.authed(caller).milestone_added(
                caller,
                id,
                title,
                description_hash,
                amount,
                Some(condition),
                EscrowError::E19,
            )
        }
    }

    /// Changes the title of a milestone that nobody has worked on.
    pub open spec fn retitle(
        self,
        caller: Address,
        id: u64,
        mid: u32,
        title: Seq<u8>,
    ) -> Outcome<()> {
        if self.config.paused {
            Err(EscrowError::E31)
        } else if title.len() == 0 || title.len() > MAX_STRING_LEN {
            Err(EscrowError::E55)
        } else {
            match self.authed(caller).accessed(id) {
                Err(e) => Err(e),
                Ok((env, m)) => if caller != m.client {
                    Err(EscrowError::E5)
                } else if !env.has_milestone(id, mid) {
                    Err(EscrowError::E13)
                } else if env.milestone(id, mid).status != MS_PENDING {
                    Err(EscrowError::E14)
                } else {
                    Ok(
                        (
                            env.saved_milestone(
                                id,
                                MilestoneView { title, ..env.milestone(id, mid) },
                            ).told_text(
                                Event::MilestoneTitleUpdated { escrow_id: id, milestone_id: mid },
                                title,
                            ),
                            (),
                        ),
                    )
                },
            }
        }
    }

    /// Work that comes in shortly before the deadline pushes it out, unless that
    /// would reach the lock time.
    pub open spec fn deadline_pushed(self, id: u64, m: MetaView) -> (LedgerView, MetaView) {
        let pushed = self.timestamp + AUTO_DEADLINE_EXTENSION_SECONDS;
        match m.deadline {
            Some(d) => if self.timestamp < d < pushed && (m.lock_time is None || pushed
                < m.lock_time->Some_0) {
                (
                    self.told(
                        Event::DeadlineExtended {
                            escrow_id: id,
                            old_deadline: d,
                            new_deadline: pushed as u64,
                        },
                    ),
                    MetaView { deadline: Some(pushed as u64), ..m },
                )
            } else {
                (self, m)
            },
            None => (self, m),
        }
    }

    /// The pushed deadline, where there is one, has a timestamp.
    pub open spec fn deadline_fits(self, id: u64) -> bool {
        self.has_meta(id) && self.meta(id).deadline is Some && self.timestamp
            < self.meta(id).deadline->Some_0 < self.timestamp + AUTO_DEADLINE_EXTENSION_SECONDS
            ==> self.timestamp + AUTO_DEADLINE_EXTENSION_SECONDS <= u64::MAX
    }

    /// Submits a milestone for approval.
    pub open spec fn submit(self, caller: Address, id: u64, mid: u32) -> Outcome<()> {
        if self.config.paused {
            Err(EscrowError::E31)
        } else if self.is_frozen(id) {
            Err(EscrowError::E61)
        } else {
            match self.authed(caller).accessed(id) {
                Err(e) => Err(e),
                Ok((seen, m0)) => if caller != m0.freelancer {
                    Err(EscrowError::E3)
                } else {
                    let (env, m) = seen.deadline_pushed(id, m0);
                    let ms = env.milestone(id, mid);
                    if !env.has_milestone(id, mid) {
                        Err(EscrowError::E13)
                    } else if ms.status != MS_PENDING && ms.status != MS_REJECTED {
                        Err(EscrowError::E14)
                    } else if env.dependency_check(id, ms) is Err {
                        env.dependency_check(id, ms)->Err_0.refused()
                    } else if m.submitted_count == u32::MAX {
                        Err(EscrowError::E20)
                    } else {
                        Ok(
                            (
                                env.saved_milestone(
                                    id,
                                    MilestoneView {
                                        status: MS_SUBMITTED,
                                        submitted_at: Some(self.timestamp),
                                        ..ms
                                    },
                                ).saved_meta(
                                    MetaView {
                                        submitted_count: (m.submitted_count + 1) as u32,
                                        ..m
                                    },
                                ).told(
                                    Event::MilestoneSubmitted {
                                        escrow_id: id,
                                        milestone_id: mid,
                                        by: caller,
                                    },
                                ),
                                (),
                            ),
                        )
                    }
                },
            }
        }
    }

    /// Rejects a submitted milestone; `reason` is kept with it, where there is
    /// one.
    pub open spec fn rejected(
        self,
        caller: Address,
        id: u64,
        mid: u32,
        reason: Option<Hash32>,
    ) -> Outcome<()> {
        match self.accessed(id) {
            Err(e) => Err(e),
            Ok((env, m)) => if caller != m.client {
                Err(EscrowError::E5)
            } else if m.status != EscrowStatus::Active {
                Err(EscrowError::E9)
            } else if !env.has_milestone(id, mid) {
                Err(EscrowError::E13)
            } else if env.milestone(id, mid).status != MS_SUBMITTED {
                Err(EscrowError::E14)
            } else {
                let ms = env.milestone(id, mid);
                Ok(
                    (
                        env.saved_milestone(
                            id,
                            MilestoneView {
                                status: MS_REJECTED,
                                resolved_at: Some(self.timestamp),
                                rejection_reason: if reason is Some {
                                    reason
                                } else {
                                    ms.rejection_reason
                                },
                                ..ms
                            },
                        ).saved_meta(
                            MetaView { submitted_count: one_less(m.submitted_count), ..m },
                        ).told(
                            match reason {
                                None => Event::MilestoneRejected {
                                    escrow_id: id,
                                    milestone_id: mid,
                                    by: caller,
                                },
                                Some(r) => Event::MilestoneRejectedWithReason {
                                    escrow_id: id,
                                    milestone_id: mid,
                                    by: caller,
                                    reason: r,
                                },
                            },
                        ),
                        (),
                    ),
                )
            },
        }
    }

    pub open spec fn reject(self, caller: Address, id: u64, mid: u32) -> Outcome<()> {
        if self.config.paused {
            Err(EscrowError::E31)
        } else if self.is_frozen(id) {
            Err(EscrowError::E61)
        } else {
            self.authed(caller).rejected(caller, id, mid, None)
        }
    }

    pub open spec fn reject_with_reason(
        self,
        caller: Address,
        id: u64,
        mid: u32,
        reason: Hash32,
    ) -> Outcome<()> {
        if self.config.paused {
            Err(EscrowError::E31)
        } else if reason.zero() {
            Err(EscrowError::E19)
        } else {
            self.authed(caller).rejected(caller, id, mid, Some(reason))
        }
    }

    /// Why somebody may not approve milestones of an escrow, if so. Under a
    /// policy only its approvers may, the client among them only if it is named.
    pub open spec fn approver_check(self, m: MetaView, who: Address) -> Result<(), EscrowError> {
        if m.multisig_threshold > 0 {
            if weight_of(m, who) is None {
                Err(EscrowError::MultisigNotApprover)
            } else {
                Ok(())
            }
        } else if who != m.client && !m.buyer_signers.contains(who.id) {
            Err(EscrowError::E3)
        } else {
            Ok(())
        }
    }

    /// A milestone that has all the approval it needs. Unless a timelock is
    /// running, its amount is paid at once.
    pub open spec fn approval_done(
        self,
        caller: Address,
        id: u64,
        mid: u32,
        m: MetaView,
        ms: MilestoneView,
    ) -> Outcome<()> {
        let env = self.timelock_seen(id, m.timelock);
        let over = self.timelock_over(id, m.timelock) is Ok;
        if m.approved_count == u32::MAX {
            Err(EscrowError::E20)
        } else if over && env.terms_check(id, m) is Err {
            env.terms_check(id, m)->Err_0.refused()
        } else if over && env.slippage_check(m) is Err {
            env.slippage_check(m)->Err_0.refused()
        } else if over && !(i128::MIN <= m.remaining_balance - ms.amount <= i128::MAX) {
            Err(EscrowError::E20)
        } else if over && m.released_count == u32::MAX {
            Err(EscrowError::E20)
        } else {
            let paid = if over {
                env.paid(m.token, m.freelancer, ms.amount).told(
                    Event::FundsReleased { escrow_id: id, to: m.freelancer, amount: ms.amount },
                )
            } else {
                env
            };
            let m2 = MetaView {
                approved_count: (m.approved_count + 1) as u32,
                submitted_count: one_less(m.submitted_count),
                remaining_balance: if over {
                    (m.remaining_balance - ms.amount) as i128
                } else {
                    m.remaining_balance
                },
                released_count: if over {
                    (m.released_count + 1) as u32
                } else {
                    m.released_count
                },
                ..m
            };
            let ms2 = MilestoneView {
                status: if over {
                    MS_RELEASED
                } else {
                    MS_APPROVED
                },
                resolved_at: Some(self.timestamp),
                ..ms
            };
            let done = m2.approved_count == m2.milestone_count && m2.milestone_count > 0
                && m2.released_count == m2.milestone_count && !self.scheduled(id);
            let shown = paid.saved_milestone(id, ms2).dependents_told(id, mid);
            let ended = if done {
                shown.finished(id, Some(caller))
            } else {
                shown
            };
            let m3 = MetaView {
                status: if done {
                    EscrowStatus::Completed
                } else {
                    m2.status
                },
                ..m2
            };
            Ok(
                (
                    ended.saved_meta(m3).told(
                        Event::MilestoneApproved {
                            escrow_id: id,
                            milestone_id: mid,
                            amount: ms.amount,
                        },
                    ),
                    (),
                ),
            )
        }
    }

    /// A milestone with one more signature.
    pub open spec fn signed(self, ms: MilestoneView, who: Address) -> MilestoneView {
        MilestoneView {
            approvals: ms.approvals.push(
                ApprovalRecord { signer: who, approved_at: self.timestamp },
            ),
            ..ms
        }
    }

    /// Approves a submitted milestone. Under a policy each approver signs once,
    /// and the milestone is approved by the signature that reaches the threshold.
    pub open spec fn approve(self, caller: Address, id: u64, mid: u32) -> Outcome<()> {
        if self.config.paused {
            Err(EscrowError::E31)
        } else if self.is_frozen(id) {
            Err(EscrowError::E61)
        } else if self.config.reentrancy_lock {
            Err(EscrowError::E22)
        } else {
            match self.authed(caller).accessed(id) {
                Err(e) => Err(e),
                Ok((seen, m)) => if m.status != EscrowStatus::Active {
                    Err(EscrowError::E9)
                } else {
                    match seen.unlocked(id, m.lock_time) {
                        Err(e) => Err(e),
                        Ok((env, _)) => {
                            let ms = env.milestone(id, mid);
                            let signed = env.signed(ms, caller);
                            let weight = accrued(m, signed.approvals);
                            if env.approver_check(m, caller) is Err {
                                env.approver_check(m, caller)->Err_0.refused()
                            } else if !env.has_milestone(id, mid) {
                                Err(EscrowError::E13)
                            } else if ms.status != MS_SUBMITTED {
                                Err(EscrowError::E14)
                            } else if env.dependency_check(id, ms) is Err {
                                env.dependency_check(id, ms)->Err_0.refused()
                            } else if m.multisig_threshold == 0 {
                                env.approval_done(caller, id, mid, m, ms)
                            } else if has_signed(ms.approvals, caller) {
                                Err(EscrowError::MultisigDuplicateApproval)
                            } else if weight > u32::MAX {
                                Err(EscrowError::E20)
                            } else {
                                let noted = env.told(
                                    Event::MultisigApprovalRecorded {
                                        escrow_id: id,
                                        milestone_id: mid,
                                        signer: caller,
                                        accrued: weight as u32,
                                        threshold: m.multisig_threshold,
                                    },
                                );
                                if weight < m.multisig_threshold {
                                    Ok((noted.saved_milestone(id, signed).saved_meta(m), ()))
                                } else {
                                    noted.approval_done(caller, id, mid, m, signed)
                                }
                            }
                        },
                    }
                },
            }
        }
    }

    /// Releases a milestone whose price condition holds.
    pub open spec fn oracle_release(self, caller: Address, id: u64, mid: u32) -> Outcome<()> {
        if self.config.admin is None {
            Err(EscrowError::E2)
        } else if self.config.paused {
            Err(EscrowError::E31)
        } else if self.config.reentrancy_lock {
            Err(EscrowError::E22)
        } else {
            match self.authed(caller).accessed(id) {
                Err(e) => Err(e),
                Ok((seen, m)) => {
                    let env = seen.lock_seen(id, m.lock_time);
                    let ms = env.milestone(id, mid);
                    if m.status != EscrowStatus::Active {
                        Err(EscrowError::E9)
                    } else if seen.unlocked(id, m.lock_time) is Err {
                        seen.unlocked(id, m.lock_time)->Err_0.refused()
                    } else if !env.has_milestone(id, mid) {
                        Err(EscrowError::E13)
                    } else if ms.status != MS_PENDING || ms.price_condition is None {
                        Err(EscrowError::E14)
                    } else {
                        let c = ms.price_condition->Some_0;
                        match env.price(c.asset) {
                            Err(e) => Err(e),
                            Ok(price) => if !condition_met(c, price) {
                                Err(EscrowError::E14)
                            } else if !(i128::MIN <= m.remaining_balance - ms.amount
                                <= i128::MAX) || m.approved_count == u32::MAX || m.released_count
                                == u32::MAX {
                                Err(EscrowError::E20)
                            } else if env.terms_check(id, m) is Err {
                                env.terms_check(id, m)->Err_0.refused()
                            } else if env.slippage_check(m) is Err {
                                env.slippage_check(m)->Err_0.refused()
                            } else {
                                let done = m.released_count + 1 == m.milestone_count
                                    && !self.scheduled(id);
                                let paid = env.saved_milestone(
                                    id,
                                    MilestoneView {
                                        status: MS_RELEASED,
                                        submitted_at: Some(self.timestamp),
                                        resolved_at: Some(self.timestamp),
                                        ..ms
                                    },
                                ).paid(m.token, m.freelancer, ms.amount).told(
                                    Event::MilestoneApproved {
                                        escrow_id: id,
                                        milestone_id: mid,
                                        amount: ms.amount,
                                    },
                                ).told(
                                    Event::FundsReleased {
                                        escrow_id: id,
                                        to: m.freelancer,
                                        amount: ms.amount,
                                    },
                                );
                                let ended = if done {
                                    paid.finished(id, Some(caller))
                                } else {
                                    paid
                                };
                                Ok(
                                    (
                                        ended.saved_meta(
                                            MetaView {
                                                remaining_balance: (m.remaining_balance
                                                    - ms.amount) as i128,
                                                approved_count: (m.approved_count + 1) as u32,
                                                released_count: (m.released_count + 1) as u32,
                                                status: if done {
                                                    EscrowStatus::Completed
                                                } else {
                                                    m.status
                                                },
                                                ..m
                                            },
                                        ),
                                        (),
                                    ),
                                )
                            },
                        }
                    }
                },
            }
        }
    }
}

impl EscrowError {
    /// A request refused for this reason.
    pub open spec fn refused<T>(self) -> Outcome<T> {
        Err(self)
    }
}

impl EscrowContract {
    /// How many milestones an escrow may have.
    pub fn milestone_limit(env: &Ledger) -> (r: u32)
        ensures
            r == env@.milestone_cap(),
    {
        match env.config.max_milestones {
            Some(n) => n,
            None => MAX_MILESTONES,
        }
    }

    /// Adds a milestone for a caller who has been asked to sign.
    fn add_milestone_checked(
        env: &mut Ledger,
        caller: Address,
        escrow_id: u64,
        title: Text,
        description_hash: Hash32,
        amount: i128,
        price_condition: OptionalPriceCondition,
        too_long: EscrowError,
    ) -> (r: Result<u32, EscrowError>)
        requires
            old(env)@.rent_ok(escrow_id),
        ensures
            attempts(
                r,
                final(env)@,
                old(env)@.milestone_added(
                    caller,
                    escrow_id,
                    title@,
                    description_hash,
                    amount,
                    price_condition,
                    too_long,
                ),
            ),
    {
        if amount <= 0 {
            return Err(EscrowError::E17);
        }
        if amount > MAX_ESCROW_AMOUNT {
            return Err(EscrowError::E85);
        }
        if title.len() > MAX_STRING_LEN as usize {
            return Err(too_long);
        }
        let mut meta = ContractStorage::load_escrow_meta_with_rent(env, escrow_id)?;
        if caller != meta.client {
            return Err(EscrowError::E5);
        }
        if meta.status != EscrowStatus::Active {
            return Err(EscrowError::E9);
        }
        let next_allocated: i128 = match meta.allocated_amount.checked_add(amount) {
            None => {
                return Err(EscrowError::E15);
            },
            Some(n) => n,
        };
        if next_allocated > meta.total_amount || next_allocated > meta.allotted_amount {
            return Err(EscrowError::E15);
        }
        let milestone_id: u32 = meta.milestone_count;
        if milestone_id >= Self::milestone_limit(env) {
            return Err(EscrowError::E16);
        }
        meta.milestone_count = milestone_id + 1;
        meta.allocated_amount = next_allocated;
        ContractStorage::charge_entry_rent(env, &mut meta, caller, 1)?;
        let milestone = Milestone {
            id: milestone_id,
            title,
            description_hash,
            amount,
            status: MS_PENDING,
            submitted_at: None,
            resolved_at: None,
            approvals: Approvals::new(),
            rejection_reason: None,
            price_condition,
            depends_on: None,
        };
        ContractStorage::save_milestone(env, escrow_id, &milestone);
        ContractStorage::save_escrow_meta(env, &meta);
        env.publish(Event::MilestoneAdded { escrow_id, milestone_id, amount });
        Ok(milestone_id)
    }

    /// Adds a milestone to an escrow.
    pub fn add_milestone(
        env: &mut Ledger,
        caller: Address,
        escrow_id: u64,
        title: Text,
        description_hash: Hash32,
        amount: i128,
    ) -> (r: Result<u32, EscrowError>)
        requires
            old(env)@.rent_ok(escrow_id),
        ensures
            answers(
                r,
                old(env)@,
                final(env)@,
                old(env)@.add_milestone(caller, escrow_id, title@, description_hash, amount),
            ),
    {
        let mut tx = env.dup();
        tx.require_auth(caller);
        ContractStorage::require_not_paused(&tx)?;
        ContractStorage::require_not_frozen(&tx, escrow_id)?;
        let id: u32 = Self::add_milestone_checked(
            &mut tx,
            caller,
            escrow_id,
            title,
            description_hash,
            amount,
            None,
            EscrowError::E19,
        )?;
        *env = tx;
        Ok(id)
    }

    /// Adds a milestone of a template for a client who has been asked to sign.
    #[verifier::rlimit(40)]
    pub fn add_milestone_internal(
        env: &mut Ledger,
        caller: Address,
        escrow_id: u64,
        title: Text,
        description_hash: Hash32,
        amount: i128,
    ) -> (r: Result<u32, EscrowError>)
        requires
            old(env)@.rent_ok(escrow_id),
        ensures
            answers(
                r,
                old(env)@,
                final(env)@,
                old(env)@.milestone_added(
                    caller,
                    escrow_id,
                    title@,
                    description_hash,
                    amount,
                    None,
                    EscrowError::E55,
                ),
            ),
    {
        let mut tx = env.dup();
        let id: u32 = Self::add_milestone_checked(
            &mut tx,
            caller,
            escrow_id,
            title,
            description_hash,
            amount,
            None,
            EscrowError::E55,
        )?;
        *env = tx;
        Ok(id)
    }

    /// Adds a milestone that a price releases.
    pub fn create_price_indexed_milestone(
        env: &mut Ledger,
        caller: Address,
        escrow_id: u64,
        title: Text,
        description_hash: Hash32,
        amount: i128,
        price_condition: PriceCondition,
    ) -> (r: Result<u32, EscrowError>)
        requires
            old(env)@.rent_ok(escrow_id),
        ensures
            answers(
                r,
                old(env)@,
                final(env)@,
                old(env)@.add_price_milestone(
                    caller,
                    escrow_id,
                    title@,
                    description_hash,
                    amount,
                    price_condition,
                ),
            ),
    {
        let mut tx = env.dup();
        tx.require_auth(caller);
        ContractStorage::require_not_paused(&tx)?;
        ContractStorage::require_not_frozen(&tx, escrow_id)?;
        let id: u32 = Self::add_milestone_checked(
            &mut tx,
            caller,
            escrow_id,
            title,
            description_hash,
            amount,
            Some(price_condition),
            EscrowError::E19,
        )?;
        *env = tx;
        Ok(id)
    }

    /// Changes the title of a milestone that nobody has worked on.
    pub fn update_milestone_title(
        env: &mut Ledger,
        caller: Address,
        escrow_id: u64,
        milestone_id: u32,
        new_title: Text,
    ) -> (r: Result<(), EscrowError>)
        requires
            old(env)@.rent_ok(escrow_id),
        ensures
            answers(
                r,
                old(env)@,
                final(env)@,
                old(env)@.retitle(caller, escrow_id, milestone_id, new_title@),
            ),
    {
        let mut tx = env.dup();
        tx.require_auth(caller);
        ContractStorage::require_not_paused(&tx)?;
        if new_title.len() == 0 || new_title.len() > MAX_STRING_LEN as usize {
            return Err(EscrowError::E55);
        }
        let meta = ContractStorage::load_escrow_meta_with_rent(&mut tx, escrow_id)?;
        if caller != meta.client {
            return Err(EscrowError::E5);
        }
        let mut milestone = ContractStorage::load_milestone(&tx, escrow_id, milestone_id)?;
        if milestone.status != MS_PENDING {
            return Err(EscrowError::E14);
        }
        milestone.title = new_title;
        ContractStorage::save_milestone(&mut tx, escrow_id, &milestone);
        tx.publish_text(
            Event::MilestoneTitleUpdated { escrow_id, milestone_id },
            &milestone.title,
        );
        *env = tx;
        Ok(())
    }

    /// The freelancer submits a milestone for approval.
    #[verifier::rlimit(40)]
    pub fn submit_milestone(
        env: &mut Ledger,
        caller: Address,
        escrow_id: u64,
        milestone_id: u32,
    ) -> (r: Result<(), EscrowError>)
        requires
            old(env)@.rent_ok(escrow_id),
            old(env)@.deadline_fits(escrow_id),
        ensures
            answers(
                r,
                old(env)@,
                final(env)@,
                old(env)@.submit(caller, escrow_id, milestone_id),
            ),
    {
        let mut tx = env.dup();
        tx.require_auth(caller);
        ContractStorage::require_not_paused(&tx)?;
        ContractStorage::require_not_frozen(&tx, escrow_id)?;
        let mut meta = ContractStorage::load_escrow_meta_with_rent(&mut tx, escrow_id)?;
        if caller != meta.freelancer {
            return Err(EscrowError::E3);
        }
        let now: u64 = tx.timestamp;
        if let Some(deadline) = meta.deadline {
            if deadline > now && deadline - now < AUTO_DEADLINE_EXTENSION_SECONDS {
                let new_deadline: u64 = now + AUTO_DEADLINE_EXTENSION_SECONDS;
                let within = match meta.lock_time {
                    None => true,
                    Some(lt) => new_deadline < lt,
                };
                if within {
                    meta.deadline = Some(new_deadline);
                    tx.publish(
                        Event::DeadlineExtended { escrow_id, old_deadline: deadline, new_deadline },
                    );
                }
            }
        }
        let mut milestone = ContractStorage::load_milestone(&tx, escrow_id, milestone_id)?;
        if milestone.status != MS_PENDING && milestone.status != MS_REJECTED {
            return Err(EscrowError::E14);
        }
        Self::require_dependency_satisfied(&tx, escrow_id, &milestone)?;
        milestone.status = MS_SUBMITTED;
        milestone.submitted_at = Some(now);
        ContractStorage::save_milestone(&mut tx, escrow_id, &milestone);
        if meta.submitted_count == u32::MAX {
            return Err(EscrowError::E20);
        }
        meta.submitted_count = meta.submitted_count + 1;
        ContractStorage::save_escrow_meta(&mut tx, &meta);
        tx.publish(Event::MilestoneSubmitted { escrow_id, milestone_id, by: caller });
        *env = tx;
        Ok(())
    }

    fn reject_checked(
        env: &mut Ledger,
        caller: Address,
        escrow_id: u64,
        milestone_id: u32,
        reason: Option<Hash32>,
    ) -> (r: Result<(), EscrowError>)
        requires
            old(env)@.rent_ok(escrow_id),
        ensures
            attempts(
                r,
                final(env)@,
                old(env)@.rejected(caller, escrow_id, milestone_id, reason),
            ),
    {
        let mut meta = ContractStorage::load_escrow_meta_with_rent(env, escrow_id)?;
        if caller != meta.client {
            return Err(EscrowError::E5);
        }
        if meta.status != EscrowStatus::Active {
            return Err(EscrowError::E9);
        }
        let mut milestone = ContractStorage::load_milestone(env, escrow_id, milestone_id)?;
        if milestone.status != MS_SUBMITTED {
            return Err(EscrowError::E14);
        }
        milestone.status = MS_REJECTED;
        milestone.resolved_at = Some(env.timestamp);
        if reason.is_some() {
            milestone.rejection_reason = reason;
        }
        ContractStorage::save_milestone(env, escrow_id, &milestone);
        if meta.submitted_count > 0 {
            meta.submitted_count = meta.submitted_count - 1;
        }
        ContractStorage::save_escrow_meta(env, &meta);
        match reason {
            None => {
                env.publish(Event::MilestoneRejected { escrow_id, milestone_id, by: caller });
            },
            Some(r) => {
                env.publish(
                    Event::MilestoneRejectedWithReason {
                        escrow_id,
                        milestone_id,
                        by: caller,
                        reason: r,
                    },
                );
            },
        }
        Ok(())
    }

    /// The client rejects a submitted milestone.
    pub fn reject_milestone(
        env: &mut Ledger,
        caller: Address,
        escrow_id: u64,
        milestone_id: u32,
    ) -> (r: Result<(), EscrowError>)
        requires
            old(env)@.rent_ok(escrow_id),
        ensures
            answers(
                r,
                old(env)@,
                final(env)@,
                old(env)@.reject(caller, escrow_id, milestone_id),
            ),
    {
        let mut tx = env.dup();
        tx.require_auth(caller);
        ContractStorage::require_not_paused(&tx)?;
        ContractStorage::require_not_frozen(&tx, escrow_id)?;
        Self::reject_checked(&mut tx, caller, escrow_id, milestone_id, None)?;
        *env = tx;
        Ok(())
    }

    /// The client rejects a submitted milestone and says why.
    pub fn reject_milestone_with_reason(
        env: &mut Ledger,
        caller: Address,
        escrow_id: u64,
        milestone_id: u32,
        reason_hash: Hash32,
    ) -> (r: Result<(), EscrowError>)
        requires
            old(env)@.rent_ok(escrow_id),
        ensures
            answers(
                r,
                old(env)@,
                final(env)@,
                old(env)@.reject_with_reason(caller, escrow_id, milestone_id, reason_hash),
            ),
    {
        let mut tx = env.dup();
        tx.require_auth(caller);
        ContractStorage::require_not_paused(&tx)?;
        if reason_hash.is_zero() {
            return Err(EscrowError::E19);
        }
        Self::reject_checked(&mut tx, caller, escrow_id, milestone_id, Some(reason_hash))?;
        *env = tx;
        Ok(())
    }

    /// Finds out whether somebody may approve.
    pub(crate) fn check_approver(
        env: &Ledger,
        meta: &EscrowMeta,
        caller: Address,
    ) -> (r: Result<(), EscrowError>)
        ensures
            r == env@.approver_check(meta@, caller),
    {
        if meta.multisig_threshold > 0 {
            if Self::approver_weight(meta, caller).is_none() {
                return Err(EscrowError::MultisigNotApprover);
            }
        } else if caller != meta.client && !meta.buyer_signers.contains(caller.id) {
            return Err(EscrowError::E3);
        }
        Ok(())
    }

    fn complete_approval(
        env: &mut Ledger,
        caller: Address,
        escrow_id: u64,
        milestone_id: u32,
        meta: EscrowMeta,
        milestone: Milestone,
    ) -> (r: Result<(), EscrowError>)
        requires
            old(env)@.rent_ok(escrow_id),
            old(env)@.slippage_fits(meta@),
            listed(old(env)@.book.by_status, EscrowStatus::Completed).len() < u32::MAX,
        ensures
            attempts(
                r,
                final(env)@,
                old(env)@.approval_done(caller, escrow_id, milestone_id, meta@, milestone@),
            ),
    {
        let mut meta = meta;
        let mut milestone = milestone;
        let now: u64 = env.timestamp;
        let amount: i128 = milestone.amount;
        let scheduled = ContractStorage::has_payments_left(env, escrow_id);
        milestone.status = MS_APPROVED;
        milestone.resolved_at = Some(now);
        if meta.approved_count == u32::MAX {
            return Err(EscrowError::E20);
        }
        let over = ContractStorage::check_timelock_expired(env, escrow_id, meta.timelock).is_ok();
        if over {
            Self::check_terms(env, escrow_id, &meta)?;
            ContractStorage::check_slippage(env, &meta)?;
            env.pay(meta.token, meta.freelancer, amount);
            match meta.remaining_balance.checked_sub(amount) {
                None => {
                    return Err(EscrowError::E20);
                },
                Some(b) => {
                    meta.remaining_balance = b;
                },
            }
            if meta.released_count == u32::MAX {
                return Err(EscrowError::E20);
            }
            meta.released_count = meta.released_count + 1;
            milestone.status = MS_RELEASED;
            env.publish(Event::FundsReleased { escrow_id, to: meta.freelancer, amount });
        }
        meta.approved_count = meta.approved_count + 1;
        if meta.submitted_count > 0 {
            meta.submitted_count = meta.submitted_count - 1;
        }
        ContractStorage::save_milestone(env, escrow_id, &milestone);
        proof {
            lemma_dependents_told(env@, escrow_id, milestone_id);
        }
        Self::emit_dependents_unlocked(env, escrow_id, milestone_id);
        if meta.approved_count == meta.milestone_count && meta.milestone_count > 0
            && meta.released_count == meta.milestone_count && !scheduled {
            meta.status = EscrowStatus::Completed;
            Self::finish(env, escrow_id, Some(caller));
        }
        ContractStorage::save_escrow_meta(env, &meta);
        env.publish(Event::MilestoneApproved { escrow_id, milestone_id, amount });
        Ok(())
    }

    /// Approves a submitted milestone.
    #[verifier::rlimit(40)]
    pub fn approve_milestone(
        env: &mut Ledger,
        caller: Address,
        escrow_id: u64,
        milestone_id: u32,
    ) -> (r: Result<(), EscrowError>)
        requires
            old(env)@.rent_ok(escrow_id),
            old(env)@.slippage_ok(escrow_id),
            old(env)@.room(1),
        ensures
            answers(
                r,
                old(env)@,
                final(env)@,
                old(env)@.approve(caller, escrow_id, milestone_id),
            ),
    {
        let mut tx = env.dup();
        tx.require_auth(caller);
        ContractStorage::require_not_paused(&tx)?;
        ContractStorage::require_not_frozen(&tx, escrow_id)?;
        ContractStorage::require_unlocked(&tx)?;
        let ghost asked = tx@;
        let meta = ContractStorage::load_escrow_meta_with_rent(&mut tx, escrow_id)?;
        proof {
            lemma_access_again(asked, escrow_id);
            assert(listed(env@.book.by_status, EscrowStatus::Completed).len() + 1 <= u32::MAX);
        }
        if meta.status != EscrowStatus::Active {
            return Err(EscrowError::E9);
        }
        ContractStorage::check_lock_time_expired(&mut tx, escrow_id, meta.lock_time)?;
        Self::check_approver(&tx, &meta, caller)?;
        let mut milestone = ContractStorage::load_milestone(&tx, escrow_id, milestone_id)?;
        if milestone.status != MS_SUBMITTED {
            return Err(EscrowError::E14);
        }
        Self::require_dependency_satisfied(&tx, escrow_id, &milestone)?;
        if meta.multisig_threshold > 0 {
            if Self::signed_by(&milestone, caller) {
                return Err(EscrowError::MultisigDuplicateApproval);
            }
            milestone.approvals.items.push(
                ApprovalRecord { signer: caller, approved_at: tx.timestamp },
            );
            let weight: u32 = Self::accrued_approval_weight(&meta, &milestone)?;
            tx.publish(
                Event::MultisigApprovalRecorded {
                    escrow_id,
                    milestone_id,
                    signer: caller,
                    accrued: weight,
                    threshold: meta.multisig_threshold,
                },
            );
            if weight < meta.multisig_threshold {
                ContractStorage::save_milestone(&mut tx, escrow_id, &milestone);
                ContractStorage::save_escrow_meta(&mut tx, &meta);
                *env = tx;
                return Ok(());
            }
        }
        Self::complete_approval(&mut tx, caller, escrow_id, milestone_id, meta, milestone)?;
        *env = tx;
        Ok(())
    }

    /// Releases a milestone whose price condition holds.
    #[verifier::rlimit(40)]
    pub fn trigger_oracle_release(
        env: &mut Ledger,
        caller: Address,
        escrow_id: u64,
        milestone_id: u32,
    ) -> (r: Result<(), EscrowError>)
        requires
            old(env)@.rent_ok(escrow_id),
            old(env)@.slippage_ok(escrow_id),
            old(env)@.room(1),
        ensures
            answers(
                r,
                old(env)@,
                final(env)@,
                old(env)@.oracle_release(caller, escrow_id, milestone_id),
            ),
    {
        let mut tx = env.dup();
        tx.require_auth(caller);
        ContractStorage::require_initialized(&tx)?;
        ContractStorage::require_not_paused(&tx)?;
        ContractStorage::require_unlocked(&tx)?;
        let mut meta = ContractStorage::load_escrow_meta_with_rent(&mut tx, escrow_id)?;
        if meta.status != EscrowStatus::Active {
            return Err(EscrowError::E9);
        }
        ContractStorage::check_lock_time_expired(&mut tx, escrow_id, meta.lock_time)?;
        let mut milestone = ContractStorage::load_milestone(&tx, escrow_id, milestone_id)?;
        if milestone.status != MS_PENDING {
            return Err(EscrowError::E14);
        }
        let condition = match milestone.price_condition {
            None => {
                return Err(EscrowError::E14);
            },
            Some(c) => c,
        };
        let price: i128 = tx.price_of(condition.asset)?;
        let met = match condition.direction {
            PriceDirection::Above => price >= condition.target_price_usd,
            PriceDirection::Below => price <= condition.target_price_usd,
        };
        if !met {
            return Err(EscrowError::E14);
        }
        let now: u64 = tx.timestamp;
        let amount: i128 = milestone.amount;
        milestone.status = MS_RELEASED;
        milestone.submitted_at = Some(now);
        milestone.resolved_at = Some(now);
        ContractStorage::save_milestone(&mut tx, escrow_id, &milestone);
        match meta.remaining_balance.checked_sub(amount) {
            None => {
                return Err(EscrowError::E20);
            },
            Some(b) => {
                meta.remaining_balance = b;
            },
        }
        if meta.approved_count == u32::MAX || meta.released_count == u32::MAX {
            return Err(EscrowError::E20);
        }
        meta.approved_count = meta.approved_count + 1;
        meta.released_count = meta.released_count + 1;
        Self::check_terms(&tx, escrow_id, &meta)?;
        ContractStorage::check_slippage(&tx, &meta)?;
        tx.pay(meta.token, meta.freelancer, amount);
        tx.publish(Event::MilestoneApproved { escrow_id, milestone_id, amount });
        tx.publish(Event::FundsReleased { escrow_id, to: meta.freelancer, amount });
        if meta.released_count == meta.milestone_count && meta.milestone_count > 0
            && !ContractStorage::has_payments_left(&tx, escrow_id) {
            meta.status = EscrowStatus::Completed;
            assert(listed(env@.book.by_status, EscrowStatus::Completed).len() + 1 <= u32::MAX);
            Self::finish(&mut tx, escrow_id, Some(caller));
        }
        ContractStorage::save_escrow_meta(&mut tx, &meta);
        *env = tx;
        Ok(())
    }
}

} // verus!
