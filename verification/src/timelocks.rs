//! Lock times, timelocks, and releases that wait for them.
use vstd::prelude::*;

use crate::constants::MAX_TIMELOCK_DURATION_SECONDS;
use crate::contract::EscrowContract;
use crate::errors::EscrowError;
use crate::events::Event;
use crate::index::listed;
use crate::ledger::{answers, BookView, Ledger, LedgerView, Outcome};
use crate::release::lemma_access_again;
use crate::storage::ContractStorage;
use crate::types::{
    Address, EscrowStatus, MetaView, MilestoneView, Timelock, MS_APPROVED,
};

verus! {

impl LedgerView {
    /// Starts a timelock on an escrow that has none.
    pub open spec fn start_timelock(self, caller: Address, id: u64, duration: u64) -> Outcome<()> {
        if self.config.admin is None {
            Err(EscrowError::E2)
        } else if self.config.paused {
            Err(EscrowError::E31)
        } else if self.is_frozen(id) {
            Err(EscrowError::E61)
        } else if !(0 < duration <= MAX_TIMELOCK_DURATION_SECONDS) {
            Err(EscrowError::E51)
        } else {
            match self.authed(caller).accessed(id) {
                Err(e) => Err(e),
                Ok((env, m)) => if caller != m.client && caller != m.freelancer {
                    Err(EscrowError::E3)
                } else if m.status != EscrowStatus::Active {
                    Err(EscrowError::E9)
                } else if m.timelock is Some {
                    Err(EscrowError::E51)
                } else {
                    Ok(
                        (
                            env.saved_meta(
                                MetaView {
                                    timelock: Some(
                                        Timelock {
                                            duration_ledger: duration,
                                            start_ledger: self.timestamp,
                                        },
                                    ),
                                    ..m
                                },
                            ).told(
                                Event::TimelockStarted {
                                    escrow_id: id,
                                    duration,
                                    start: self.timestamp,
                                },
                            ),
                            (),
                        ),
                    )
                },
            }
        }
    }

    /// Sets another lock time, no later than the escrow allows.
    pub open spec fn extend_lock(self, caller: Address, id: u64, lock_time: u64) -> Outcome<()> {
        if self.config.paused {
            Err(EscrowError::E31)
        } else {
            match self.authed(caller).accessed(id) {
                Err(e) => Err(e),
                Ok((env, m)) => if caller != m.client {
                    Err(EscrowError::E5)
                } else if m.status != EscrowStatus::Active {
                    Err(EscrowError::E9)
                } else if lock_time <= self.timestamp {
                    Err(EscrowError::E30)
                } else if m.lock_time_extension is Some && lock_time
                    > m.lock_time_extension->Some_0 {
                    Err(EscrowError::E30)
                } else {
                    Ok(
                        (
                            env.saved_meta(MetaView { lock_time: Some(lock_time), ..m }).told(
                                Event::LockTimeExtended {
                                    escrow_id: id,
                                    old_lock_time: match m.lock_time {
                                        Some(t) => t,
                                        None => 0,
                                    },
                                    new_lock_time: lock_time,
                                    by: caller,
                                },
                            ),
                            (),
                        ),
                    )
                },
            }
        }
    }

    /// Sets the time from which timelocked releases of an escrow are due, once.
    pub open spec fn set_release_time(self, caller: Address, id: u64, at: u64) -> Outcome<()> {
        if self.config.admin is None {
            Err(EscrowError::E2)
        } else if self.config.paused {
            Err(EscrowError::E31)
        } else if self.is_frozen(id) {
            Err(EscrowError::E61)
        } else {
            match self.authed(caller).accessed(id) {
                Err(e) => Err(e),
                Ok((env, m)) => if caller != m.client {
                    Err(EscrowError::E3)
                } else if m.status != EscrowStatus::Active {
                    Err(EscrowError::E9)
                } else if at <= self.timestamp {
                    Err(EscrowError::TimelockReleasetimeInvalid)
                } else if env.book.release_times.contains_key(id) {
                    Err(EscrowError::TimelockAlreadySet)
                } else {
                    Ok(
                        (
                            env.with_book(
                                BookView {
                                    release_times: env.book.release_times.insert(id, at),
                                    ..env.book
                                },
                            ).told(
                                Event::TimelockReleaseTimeSet {
                                    escrow_id: id,
                                    by: caller,
                                    release_time: at,
                                },
                            ),
                            (),
                        ),
                    )
                },
            }
        }
    }

    /// Releases an approved milestone, as the admin could, once its escrow's
    /// release time has come.
    pub open spec fn timed_release(self, caller: Address, id: u64, mid: u32) -> Outcome<()> {
        if self.config.admin is None {
            Err(EscrowError::E2)
        } else if self.config.paused {
            Err(EscrowError::E31)
        } else if self.is_frozen(id) {
            Err(EscrowError::E61)
        } else if self.config.reentrancy_lock {
            Err(EscrowError::E22)
        } else {
            match self.authed(caller).accessed(id) {
                Err(e) => Err(e),
                Ok((env, m)) => {
                    let ms = env.milestone(id, mid);
                    if caller != m.client && caller != m.freelancer {
                        Err(EscrowError::E3)
                    } else if m.status != EscrowStatus::Active {
                        Err(EscrowError::E9)
                    } else if !env.book.release_times.contains_key(id) {
                        Err(EscrowError::TimelockNotSet)
                    } else if self.timestamp < env.book.release_times[id] {
                        Err(EscrowError::TimelockNotExpired)
                    } else if !env.has_milestone(id, mid) {
                        Err(EscrowError::E13)
                    } else if ms.status != MS_APPROVED {
                        Err(EscrowError::E44)
                    } else if env.dependency_check(id, ms) is Err {
                        env.dependency_check(id, ms)->Err_0.refused()
                    } else if env.unlocked(id, m.lock_time) is Err {
                        env.unlocked(id, m.lock_time)->Err_0.refused()
                    } else if env.terms_check(id, m) is Err {
                        env.terms_check(id, m)->Err_0.refused()
                    } else if m.released_count == u32::MAX {
                        Err(EscrowError::E20)
                    } else {
                        match env.lock_seen(id, m.lock_time).release_paid(
                            caller,
                            id,
                            mid,
                            m,
                            MilestoneView { resolved_at: Some(self.timestamp), ..ms },
                        ) {
                            Err(e) => Err(e),
                            Ok((paid, _)) => Ok(
                                (
                                    paid.told(
                                        Event::TimelockRelease {
                                            escrow_id: id,
                                            milestone_id: mid,
                                            by: caller,
                                            amount: ms.amount,
                                        },
                                    ),
                                    (),
                                ),
                            ),
                        }
                    }
                },
            }
        }
    }
}

impl EscrowContract {
    /// A party starts a timelock.
    pub fn start_timelock(
        env: &mut Ledger,
        caller: Address,
        escrow_id: u64,
        duration_ledger: u64,
    ) -> (r: Result<(), EscrowError>)
        requires
            old(env)@.rent_ok(escrow_id),
        ensures
            answers(
                r,
                old(env)@,
                final(env)@,
                old(env)@.start_timelock(caller, escrow_id, duration_ledger),
            ),
    {
        let mut tx = env.dup();
        tx.require_auth(caller);
        ContractStorage::require_initialized(&tx)?;
        ContractStorage::require_not_paused(&tx)?;
        ContractStorage::require_not_frozen(&tx, escrow_id)?;
        if duration_ledger == 0 || duration_ledger > MAX_TIMELOCK_DURATION_SECONDS {
            return Err(EscrowError::E51);
        }
        let mut meta = ContractStorage::load_escrow_meta_with_rent(&mut tx, escrow_id)?;
        if caller != meta.client && caller != meta.freelancer {
            return Err(EscrowError::E3);
        }
        if meta.status != EscrowStatus::Active {
            return Err(EscrowError::E9);
        }
        if meta.timelock.is_some() {
            return Err(EscrowError::E51);
        }
        let now: u64 = tx.timestamp;
        meta.timelock = Some(Timelock { duration_ledger, start_ledger: now });
        ContractStorage::save_escrow_meta(&mut tx, &meta);
        tx.publish(Event::TimelockStarted { escrow_id, duration: duration_ledger, start: now });
        *env = tx;
        Ok(())
    }

    /// The client sets another lock time.
    pub fn extend_lock_time(
        env: &mut Ledger,
        caller: Address,
        escrow_id: u64,
        new_lock_time: u64,
    ) -> (r: Result<(), EscrowError>)
        requires
            old(env)@.rent_ok(escrow_id),
        ensures
            answers(
                r,
                old(env)@,
                final(env)@,
                old(env)@.extend_lock(caller, escrow_id, new_lock_time),
            ),
    {
        let mut tx = env.dup();
        tx.require_auth(caller);
        ContractStorage::require_not_paused(&tx)?;
        let mut meta = ContractStorage::load_escrow_meta_with_rent(&mut tx, escrow_id)?;
        if caller != meta.client {
            return Err(EscrowError::E5);
        }
        if meta.status != EscrowStatus::Active {
            return Err(EscrowError::E9);
        }
        if new_lock_time <= tx.timestamp {
            return Err(EscrowError::E30);
        }
        let old_lock_time: u64 = match meta.lock_time {
            Some(t) => t,
            None => 0,
        };
        if let Some(ext) = meta.lock_time_extension {
            if new_lock_time > ext {
                return Err(EscrowError::E30);
            }
        }
        meta.lock_time = Some(new_lock_time);
        ContractStorage::save_escrow_meta(&mut tx, &meta);
        tx.publish(
            Event::LockTimeExtended { escrow_id, old_lock_time, new_lock_time, by: caller },
        );
        *env = tx;
        Ok(())
    }

    /// The client sets the time from which timelocked releases are due.
    pub fn set_timelock(
        env: &mut Ledger,
        caller: Address,
        escrow_id: u64,
        release_time: u64,
    ) -> (r: Result<(), EscrowError>)
        requires
            old(env)@.rent_ok(escrow_id),
        ensures
            answers(
                r,
                old(env)@,
                final(env)@,
                old(env)@.set_release_time(caller, escrow_id, release_time),
            ),
    {
        let mut tx = env.dup();
        tx.require_auth(caller);
        ContractStorage::require_initialized(&tx)?;
        ContractStorage::require_not_paused(&tx)?;
        ContractStorage::require_not_frozen(&tx, escrow_id)?;
        let meta = ContractStorage::load_escrow_meta_with_rent(&mut tx, escrow_id)?;
        if caller != meta.client {
            return Err(EscrowError::E3);
        }
        if meta.status != EscrowStatus::Active {
            return Err(EscrowError::E9);
        }
        if release_time <= tx.timestamp {
            return Err(EscrowError::TimelockReleasetimeInvalid);
        }
        if tx.book.release_times.has(escrow_id) {
            return Err(EscrowError::TimelockAlreadySet);
        }
        tx.book.release_times.set(escrow_id, release_time);
        tx.publish(Event::TimelockReleaseTimeSet { escrow_id, by: caller, release_time });
        *env = tx;
        Ok(())
    }

    /// A party releases an approved milestone whose release time has come.
    #[verifier::rlimit(40)]
    pub fn release_with_timelock(
        env: &mut Ledger,
        caller: Address,
        escrow_id: u64,
        milestone_id: u32,
    ) -> (r: Result<(), EscrowError>)
        requires
            old(env)@.rent_ok(escrow_id),
            old(env)@.slippage_ok(escrow_id),
            old(env)@.room(1),
        ensures
            answers(
                r,
                old(env)@,
                final(env)@,
                old(env)@.timed_release(caller, escrow_id, milestone_id),
            ),
    {
        let mut tx = env.dup();
        tx.require_auth(caller);
        ContractStorage::require_initialized(&tx)?;
        ContractStorage::require_not_paused(&tx)?;
        ContractStorage::require_not_frozen(&tx, escrow_id)?;
        ContractStorage::require_unlocked(&tx)?;
        let ghost asked = tx@;
        let meta = ContractStorage::load_escrow_meta_with_rent(&mut tx, escrow_id)?;
        proof {
            lemma_access_again(asked, escrow_id);
        }
        if caller != meta.client && caller != meta.freelancer {
            return Err(EscrowError::E3);
        }
        if meta.status != EscrowStatus::Active {
            return Err(EscrowError::E9);
        }
        let release_time: u64 = match tx.book.release_times.get(escrow_id) {
            None => {
                return Err(EscrowError::TimelockNotSet);
            },
            Some(t) => t,
        };
        let now: u64 = tx.timestamp;
        if now < release_time {
            return Err(EscrowError::TimelockNotExpired);
        }
        let mut milestone = ContractStorage::load_milestone(&tx, escrow_id, milestone_id)?;
        if milestone.status != MS_APPROVED {
            return Err(EscrowError::E44);
        }
        Self::require_dependency_satisfied(&tx, escrow_id, &milestone)?;
        ContractStorage::check_lock_time_expired(&mut tx, escrow_id, meta.lock_time)?;
        Self::check_terms(&tx, escrow_id, &meta)?;
        if meta.released_count == u32::MAX {
            return Err(EscrowError::E20);
        }
        let amount: i128 = milestone.amount;
        milestone.resolved_at = Some(now);
        assert(listed(env@.book.by_status, EscrowStatus::Completed).len() + 1 <= u32::MAX);
        Self::pay_release(&mut tx, caller, escrow_id, milestone_id, meta, milestone)?;
        tx.publish(Event::TimelockRelease { escrow_id, milestone_id, by: caller, amount });
        *env = tx;
        Ok(())
    }
}

} // verus!
