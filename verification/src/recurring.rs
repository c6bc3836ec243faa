//! Payments on a schedule.
use vstd::prelude::*;

use crate::contract::EscrowContract;
use crate::errors::EscrowError;
use crate::events::Event;
use crate::index::listed;
use crate::ledger::{answers, Ledger, LedgerView, Outcome};
use crate::schedule::next_time;
use crate::storage::ContractStorage;
use crate::types::{
    Address, Approvals, EscrowMeta, EscrowStatus, MetaView, Milestone, MilestoneView,
    RecurringPaymentConfig, Text, MS_RELEASED,
};

verus! {

/// The title of a milestone that stands for a scheduled payment: "Recurring
/// payment".
pub open spec fn payment_title() -> Seq<u8> {
    seq![
        82u8, 101u8, 99u8, 117u8, 114u8, 114u8, 105u8, 110u8, 103u8, 32u8, 112u8, 97u8, 121u8, 109u8,
        101u8, 110u8, 116u8,
    ]
}

/// Where the processing of due payments stands.
pub struct Run {
    pub env: LedgerView,
    pub m: MetaView,
    pub c: RecurringPaymentConfig,
    /// How many payments were made.
    pub count: u32,
    /// What they come to.
    pub total: i128,
}

impl Run {
    /// A payment is due.
    pub open spec fn due(self) -> bool {
        self.c.payments_remaining > 0 && self.env.timestamp >= self.c.next_payment_at
    }

    /// What the next payment comes to.
    pub open spec fn amount(self) -> i128 {
        if self.c.payments_remaining == 1 && self.c.final_payment_amount is Some {
            self.c.final_payment_amount->Some_0
        } else {
            self.c.payment_amount
        }
    }

    /// The schedule after one payment: the next one falls due an interval later,
    /// unless that is past the end date, which ends the schedule.
    pub open spec fn advanced(self, next: u64) -> RecurringPaymentConfig {
        let over = self.c.end_date is Some && next > self.c.end_date->Some_0;
        RecurringPaymentConfig {
            processed_payments: (self.c.processed_payments + 1) as u32,
            payments_remaining: if over {
                0
            } else {
                (self.c.payments_remaining - 1) as u32
            },
            last_payment_at: Some(self.env.timestamp),
            next_payment_at: if over {
                0
            } else {
                next
            },
            ..self.c
        }
    }

    /// Makes one payment. It is kept as a milestone that was paid.
    pub open spec fn paid_once(self, id: u64) -> Result<Run, EscrowError> {
        let m = self.m;
        let amount = self.amount();
        let next = next_time(self.c.next_payment_at, self.c.interval);
        if m.milestone_count == u32::MAX || m.approved_count == u32::MAX || m.released_count
            == u32::MAX {
            Err(EscrowError::E16)
        } else if !(i128::MIN <= m.allocated_amount + amount <= i128::MAX) {
            Err(EscrowError::E20)
        } else if !(i128::MIN <= m.remaining_balance - amount <= i128::MAX) {
            Err(EscrowError::E20)
        } else if self.c.processed_payments == u32::MAX || self.count == u32::MAX {
            Err(EscrowError::E16)
        } else if !(i128::MIN <= self.total + amount <= i128::MAX) {
            Err(EscrowError::E20)
        } else {
            match next {
                Err(e) => Err(e),
                Ok(at) => Ok(
                    Run {
                        env: self.env.saved_milestone(
                            id,
                            MilestoneView {
                                id: m.milestone_count,
                                title: payment_title(),
                                description_hash: m.brief_hash,
                                amount,
                                status: MS_RELEASED,
                                submitted_at: Some(self.c.next_payment_at),
                                resolved_at: Some(self.env.timestamp),
                                approvals: Seq::empty(),
                                rejection_reason: None,
                                price_condition: None,
                                depends_on: None,
                            },
                        ).paid(m.token, m.freelancer, amount),
                        m: MetaView {
                            milestone_count: (m.milestone_count + 1) as u32,
                            approved_count: (m.approved_count + 1) as u32,
                            released_count: (m.released_count + 1) as u32,
                            allocated_amount: (m.allocated_amount + amount) as i128,
                            remaining_balance: (m.remaining_balance - amount) as i128,
                            ..m
                        },
                        c: self.advanced(at),
                        count: (self.count + 1) as u32,
                        total: (self.total + amount) as i128,
                    },
                ),
            }
        }
    }

    /// Makes all payments that are due.
    pub open spec fn paid_all(self, id: u64) -> Result<Run, EscrowError>
        decreases self.c.payments_remaining,
    {
        if !self.due() {
            Ok(self)
        } else {
            match self.paid_once(id) {
                Err(e) => Err(e),
                Ok(run) => run.paid_all(id),
            }
        }
    }
}

impl LedgerView {
    /// Makes all payments of a schedule that are due. The answer is their
    /// number. The last one completes the escrow.
    pub open spec fn process_recurring(self, id: u64) -> Outcome<u32> {
        if self.config.admin is None {
            Err(EscrowError::E2)
        } else if self.config.paused {
            Err(EscrowError::E31)
        } else {
            match self.accessed(id) {
                Err(e) => Err(e),
                Ok((env, m)) => {
                    let c = env.recurring(id);
                    if m.status != EscrowStatus::Active {
                        Err(EscrowError::E9)
                    } else if !env.has_recurring(id) {
                        Err(EscrowError::E43)
                    } else if c.cancelled {
                        Err(EscrowError::E47)
                    } else if c.paused {
                        Err(EscrowError::E46)
                    } else if c.payments_remaining == 0 || self.timestamp < c.next_payment_at {
                        Err(EscrowError::E45)
                    } else if env.slippage_check(m) is Err {
                        env.slippage_check(m)->Err_0.refused()
                    } else {
                        match (Run { env, m, c, count: 0, total: 0 }).paid_all(id) {
                            Err(e) => Err(e),
                            Ok(run) => {
                                let done = run.c.payments_remaining == 0;
                                let ended = if done {
                                    run.env.finished(id, None)
                                } else {
                                    run.env
                                };
                                Ok(
                                    (
                                        ended.saved_meta(
                                            MetaView {
                                                status: if done {
                                                    EscrowStatus::Completed
                                                } else {
                                                    run.m.status
                                                },
                                                ..run.m
                                            },
                                        ).saved_recurring(id, run.c).told(
                                            Event::RecurringPaymentsProcessed {
                                                escrow_id: id,
                                                count: run.count,
                                                released: run.total,
                                                next_due: if done {
                                                    None
                                                } else {
                                                    Some(run.c.next_payment_at)
                                                },
                                            },
                                        ).told(
                                            Event::FundsReleased {
                                                escrow_id: id,
                                                to: run.m.freelancer,
                                                amount: run.total,
                                            },
                                        ),
                                        run.count,
                                    ),
                                )
                            },
                        }
                    }
                },
            }
        }
    }

    /// Why the client may not change a schedule, if so; else the schedule.
    pub open spec fn own_schedule(
        self,
        caller: Address,
        id: u64,
    ) -> Outcome<RecurringPaymentConfig> {
        if self.config.paused {
            Err(EscrowError::E31)
        } else {
            match self.authed(caller).accessed(id) {
                Err(e) => Err(e),
                Ok((env, m)) => if caller != m.client {
                    Err(EscrowError::E5)
                } else if !env.has_recurring(id) {
                    Err(EscrowError::E43)
                } else if env.recurring(id).cancelled {
                    Err(EscrowError::E47)
                } else {
                    Ok((env, env.recurring(id)))
                },
            }
        }
    }

    /// Pauses a schedule.
    pub open spec fn pause_schedule(self, caller: Address, id: u64) -> Outcome<()> {
        match self.own_schedule(caller, id) {
            Err(e) => Err(e),
            Ok((env, c)) => Ok(
                (
                    env.saved_recurring(
                        id,
                        RecurringPaymentConfig {
                            paused: true,
                            paused_at: Some(self.timestamp),
                            ..c
                        },
                    ).told(Event::RecurringSchedulePaused { escrow_id: id, by: caller }),
                    (),
                ),
            ),
        }
    }

    /// Resumes a paused schedule; payments that fell due meanwhile are due now.
    pub open spec fn resume_schedule(self, caller: Address, id: u64) -> Outcome<()> {
        match self.own_schedule(caller, id) {
            Err(e) => Err(e),
            Ok((env, c)) => {
                let next = if self.timestamp > c.next_payment_at {
                    self.timestamp
                } else {
                    c.next_payment_at
                };
                if !c.paused {
                    Ok((env, ()))
                } else {
                    Ok(
                        (
                            env.saved_recurring(
                                id,
                                RecurringPaymentConfig {
                                    paused: false,
                                    next_payment_at: next,
                                    paused_at: None,
                                    ..c
                                },
                            ).told(
                                Event::RecurringScheduleResumed {
                                    escrow_id: id,
                                    by: caller,
                                    next_payment_at: next,
                                },
                            ),
                            (),
                        ),
                    )
                }
            },
        }
    }

    /// Cancels a schedule and gives back what it has not paid.
    pub open spec fn cancel_schedule(self, caller: Address, id: u64) -> Outcome<()> {
        if self.config.paused {
            Err(EscrowError::E31)
        } else if self.config.reentrancy_lock {
            Err(EscrowError::E22)
        } else {
            match self.authed(caller).accessed(id) {
                Err(e) => Err(e),
                Ok((env, m)) => if caller != m.client {
                    Err(EscrowError::E5)
                } else if m.status != EscrowStatus::Active {
                    Err(EscrowError::E9)
                } else if !env.has_recurring(id) {
                    Err(EscrowError::E43)
                } else if env.recurring(id).cancelled {
                    Err(EscrowError::E47)
                } else {
                    let refund = m.remaining_balance;
                    let paid = if refund > 0 {
                        env.paid(m.token, m.client, refund)
                    } else {
                        env
                    };
                    Ok(
                        (
                            paid.stepped(
                                id,
                                EscrowStatus::Active,
                                EscrowStatus::Cancelled,
                                Some(caller),
                            ).moved(
                                id,
                                EscrowStatus::Active,
                                EscrowStatus::Cancelled,
                            ).saved_meta(
                                MetaView {
                                    remaining_balance: 0,
                                    status: EscrowStatus::Cancelled,
                                    ..m
                                },
                            ).saved_recurring(
                                id,
                                RecurringPaymentConfig {
                                    cancelled: true,
                                    paused: false,
                                    payments_remaining: 0,
                                    next_payment_at: 0,
                                    ..env.recurring(id)
                                },
                            ).told(
                                Event::RecurringScheduleCancelled {
                                    escrow_id: id,
                                    by: caller,
                                    refund,
                                },
                            ),
                            (),
                        ),
                    )
                },
            }
        }
    }
}

impl EscrowContract {
    /// Makes one payment of a schedule.
    fn pay_once(
        env: &mut Ledger,
        escrow_id: u64,
        meta: &mut EscrowMeta,
        c: &mut RecurringPaymentConfig,
        count: u32,
        total: i128,
    ) -> (r: Result<(u32, i128), EscrowError>)
        requires
            old(c).payments_remaining > 0,
        ensures
            match (Run { env: old(env)@, m: old(meta)@, c: *old(c), count, total }).paid_once(
                escrow_id,
            ) {
                Err(e) => r == Err::<(u32, i128), EscrowError>(e),
                Ok(run) => r == Ok::<(u32, i128), EscrowError>((run.count, run.total))
                    && final(env)@ == run.env && final(meta)@ == run.m && *final(c) == run.c
                    && run.env.book.by_status == old(env)@.book.by_status,
            },
    {
        let now: u64 = env.timestamp;
        let amount: i128 = if c.payments_remaining == 1 {
            match c.final_payment_amount {
                Some(a) => a,
                None => c.payment_amount,
            }
        } else {
            c.payment_amount
        };
        let milestone_id: u32 = meta.milestone_count;
        if milestone_id == u32::MAX || meta.approved_count == u32::MAX || meta.released_count
            == u32::MAX {
            return Err(EscrowError::E16);
        }
        let allocated: i128 = match meta.allocated_amount.checked_add(amount) {
            None => {
                return Err(EscrowError::E20);
            },
            Some(x) => x,
        };
        let remaining: i128 = match meta.remaining_balance.checked_sub(amount) {
            None => {
                return Err(EscrowError::E20);
            },
            Some(x) => x,
        };
        if c.processed_payments == u32::MAX || count == u32::MAX {
            return Err(EscrowError::E16);
        }
        let sum: i128 = match total.checked_add(amount) {
            None => {
                return Err(EscrowError::E20);
            },
            Some(x) => x,
        };
        let next: u64 = Self::next_schedule_time(c.next_payment_at, &c.interval)?;
        let bytes: Vec<u8> = vec![
            82u8, 101u8, 99u8, 117u8, 114u8, 114u8, 105u8, 110u8, 103u8, 32u8, 112u8, 97u8, 121u8,
            109u8, 101u8, 110u8, 116u8,
        ];
        assert(bytes@ =~= payment_title());
        let milestone = Milestone {
            id: milestone_id,
            title: Text { bytes },
            description_hash: meta.brief_hash,
            amount,
            status: MS_RELEASED,
            submitted_at: Some(c.next_payment_at),
            resolved_at: Some(now),
            approvals: Approvals::new(),
            rejection_reason: None,
            price_condition: None,
            depends_on: None,
        };
        ContractStorage::save_milestone(env, escrow_id, &milestone);
        env.pay(meta.token, meta.freelancer, amount);
        meta.milestone_count = milestone_id + 1;
        meta.approved_count = meta.approved_count + 1;
        meta.released_count = meta.released_count + 1;
        meta.allocated_amount = allocated;
        meta.remaining_balance = remaining;
        c.processed_payments = c.processed_payments + 1;
        c.payments_remaining = c.payments_remaining - 1;
        c.last_payment_at = Some(now);
        c.next_payment_at = next;
        if let Some(end_date) = c.end_date {
            if next > end_date {
                c.payments_remaining = 0;
                c.next_payment_at = 0;
            }
        }
        Ok((count + 1, sum))
    }

    /// Makes all payments of a schedule that are due.
    #[verifier::rlimit(40)]
    pub fn process_recurring_payments(
        env: &mut Ledger,
        escrow_id: u64,
    ) -> (r: Result<u32, EscrowError>)
        requires
            old(env)@.rent_ok(escrow_id),
            old(env)@.slippage_ok(escrow_id),
            old(env)@.room(1),
        ensures
            answers(r, old(env)@, final(env)@, old(env)@.process_recurring(escrow_id)),
    {
        let mut tx = env.dup();
        ContractStorage::require_initialized(&tx)?;
        ContractStorage::require_not_paused(&tx)?;
        let mut meta = ContractStorage::load_escrow_meta_with_rent(&mut tx, escrow_id)?;
        if meta.status != EscrowStatus::Active {
            return Err(EscrowError::E9);
        }
        let mut c = ContractStorage::load_recurring_config(&tx, escrow_id)?;
        if c.cancelled {
            return Err(EscrowError::E47);
        }
        if c.paused {
            return Err(EscrowError::E46);
        }
        let now: u64 = tx.timestamp;
        if c.payments_remaining == 0 || now < c.next_payment_at {
            return Err(EscrowError::E45);
        }
        ContractStorage::check_slippage(&tx, &meta)?;
        let mut count: u32 = 0;
        let mut total: i128 = 0;
        let ghost start = Run { env: tx@, m: meta@, c, count: 0, total: 0 };
        let mut failed: Option<EscrowError> = None;
        while failed.is_none() && c.payments_remaining > 0 && now >= c.next_payment_at
            invariant
                failed is None ==> now == tx.timestamp,
                failed is None ==> tx@.book.by_status == start.env.book.by_status,
                failed is None ==> start.paid_all(escrow_id) == (Run {
                    env: tx@,
                    m: meta@,
                    c,
                    count,
                    total,
                }).paid_all(escrow_id),
                failed matches Some(e) ==> start.paid_all(escrow_id) == Err::<Run, EscrowError>(e),
            decreases
                if failed is None {
                    c.payments_remaining + 1
                } else {
                    0
                },
        {
            match Self::pay_once(&mut tx, escrow_id, &mut meta, &mut c, count, total) {
                Ok((n, t)) => {
                    count = n;
                    total = t;
                },
                Err(e) => {
                    failed = Some(e);
                },
            }
        }
        if let Some(e) = failed {
            return Err(e);
        }
        let done = c.payments_remaining == 0;
        if done {
            meta.status = EscrowStatus::Completed;
            assert(listed(env@.book.by_status, EscrowStatus::Completed).len() + 1 <= u32::MAX);
            Self::finish(&mut tx, escrow_id, None);
        }
        ContractStorage::save_escrow_meta(&mut tx, &meta);
        ContractStorage::save_recurring_config(&mut tx, escrow_id, &c);
        tx.publish(
            Event::RecurringPaymentsProcessed {
                escrow_id,
                count,
                released: total,
                next_due: if done {
                    None
                } else {
                    Some(c.next_payment_at)
                },
            },
        );
        tx.publish(Event::FundsReleased { escrow_id, to: meta.freelancer, amount: total });
        *env = tx;
        Ok(count)
    }

    fn load_own_schedule(
        env: &mut Ledger,
        caller: Address,
        escrow_id: u64,
    ) -> (r: Result<RecurringPaymentConfig, EscrowError>)
        requires
            old(env)@.rent_ok(escrow_id),
        ensures
            crate::ledger::attempts(r, final(env)@, old(env)@.own_schedule(caller, escrow_id)),
    {
        env.require_auth(caller);
        ContractStorage::require_not_paused(env)?;
        let meta = ContractStorage::load_escrow_meta_with_rent(env, escrow_id)?;
        if caller != meta.client {
            return Err(EscrowError::E5);
        }
        let c = ContractStorage::load_recurring_config(env, escrow_id)?;
        if c.cancelled {
            return Err(EscrowError::E47);
        }
        Ok(c)
    }

    /// The client pauses a schedule.
    pub fn pause_recurring_schedule(
        env: &mut Ledger,
        caller: Address,
        escrow_id: u64,
    ) -> (r: Result<(), EscrowError>)
        requires
            old(env)@.rent_ok(escrow_id),
        ensures
            answers(r, old(env)@, final(env)@, old(env)@.pause_schedule(caller, escrow_id)),
    {
        let mut tx = env.dup();
        let mut c = Self::load_own_schedule(&mut tx, caller, escrow_id)?;
        c.paused = true;
        c.paused_at = Some(tx.timestamp);
        ContractStorage::save_recurring_config(&mut tx, escrow_id, &c);
        tx.publish(Event::RecurringSchedulePaused { escrow_id, by: caller });
        *env = tx;
        Ok(())
    }

    /// The client resumes a paused schedule.
    pub fn resume_recurring_schedule(
        env: &mut Ledger,
        caller: Address,
        escrow_id: u64,
    ) -> (r: Result<(), EscrowError>)
        requires
            old(env)@.rent_ok(escrow_id),
        ensures
            answers(r, old(env)@, final(env)@, old(env)@.resume_schedule(caller, escrow_id)),
    {
        let mut tx = env.dup();
        let mut c = Self::load_own_schedule(&mut tx, caller, escrow_id)?;
        if !c.paused {
            *env = tx;
            return Ok(());
        }
        let now: u64 = tx.timestamp;
        c.paused = false;
        if now > c.next_payment_at {
            c.next_payment_at = now;
        }
        c.paused_at = None;
        ContractStorage::save_recurring_config(&mut tx, escrow_id, &c);
        tx.publish(
            Event::RecurringScheduleResumed {
                escrow_id,
                by: caller,
                next_payment_at: c.next_payment_at,
            },
        );
        *env = tx;
        Ok(())
    }

    /// The client cancels a schedule.
    #[verifier::rlimit(40)]
    pub fn cancel_recurring_escrow(
        env: &mut Ledger,
        caller: Address,
        escrow_id: u64,
    ) -> (r: Result<(), EscrowError>)
        requires
            old(env)@.rent_ok(escrow_id),
            old(env)@.room(1),
        ensures
            answers(r, old(env)@, final(env)@, old(env)@.cancel_schedule(caller, escrow_id)),
    {
        let mut tx = env.dup();
        tx.require_auth(caller);
        ContractStorage::require_not_paused(&tx)?;
        ContractStorage::require_unlocked(&tx)?;
        let mut meta = ContractStorage::load_escrow_meta_with_rent(&mut tx, escrow_id)?;
        if caller != meta.client {
            return Err(EscrowError::E5);
        }
        if meta.status != EscrowStatus::Active {
            return Err(EscrowError::E9);
        }
        let mut c = ContractStorage::load_recurring_config(&tx, escrow_id)?;
        if c.cancelled {
            return Err(EscrowError::E47);
        }
        let refund: i128 = meta.remaining_balance;
        if refund > 0 {
            tx.pay(meta.token, meta.client, refund);
        }
        c.cancelled = true;
        c.paused = false;
        c.payments_remaining = 0;
        c.next_payment_at = 0;
        meta.remaining_balance = 0;
        meta.status = EscrowStatus::Cancelled;
        ContractStorage::record_state_change(
            &mut tx,
            escrow_id,
            EscrowStatus::Active,
            EscrowStatus::Cancelled,
            Some(caller),
        );
        assert(listed(env@.book.by_status, EscrowStatus::Cancelled).len() + 1 <= u32::MAX);
        ContractStorage::move_status(
            &mut tx,
            escrow_id,
            EscrowStatus::Active,
            EscrowStatus::Cancelled,
        );
        ContractStorage::save_escrow_meta(&mut tx, &meta);
        ContractStorage::save_recurring_config(&mut tx, escrow_id, &c);
        tx.publish(Event::RecurringScheduleCancelled { escrow_id, by: caller, refund });
        *env = tx;
        Ok(())
    }
}

} // verus!
