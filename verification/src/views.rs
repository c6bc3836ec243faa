//! Looking things up, and rent on request. Looking at an escrow settles its
//! rent.
use vstd::prelude::*;

use crate::constants::MAX_PAGE;
use crate::contract::EscrowContract;
use crate::errors::EscrowError;
use crate::events::Event;
use crate::host::Ids;
use crate::index::{list_ids, listed, page, page_of};
use crate::ledger::{answers, answers_view, Ledger, LedgerView, Outcome};
use crate::multisig::accrued;
use crate::storage::{reserve, ContractStorage};
use crate::store::Record;
use crate::types::{
    Address, ApprovalRecord, Approvals, BridgeConfirmation, CancellationRequest, CancellationView,
    ContractVersionInfo, EscrowMeta, EscrowState, EscrowStateView, EscrowStatus, MetaView,
    Milestone, MilestoneView, Milestones, RecurringPaymentConfig, RecurringScheduleStatus,
    ReputationRecord, SlashRecord, SlashRecords, SlashView, StateHistory, WrappedTokenInfo,
};

verus! {

impl LedgerView {
    /// Looks an escrow up for what `x` says of it.
    pub open spec fn looked_up<T>(self, id: u64, x: spec_fn(LedgerView, MetaView) -> Result<
        T,
        EscrowError,
    >) -> Outcome<T> {
        match self.accessed(id) {
            Err(e) => Err(e),
            Ok((env, m)) => match x(env, m) {
                Err(e) => Err(e),
                Ok(v) => Ok((env, v)),
            },
        }
    }

    /// The milestones of an escrow, if all of them are there.
    pub open spec fn milestones_of(self, id: u64, n: nat) -> Result<
        Seq<MilestoneView>,
        EscrowError,
    > {
        if forall|i: int| 0 <= i < n ==> self.has_milestone(id, #[trigger] (i as u32)) {
            Ok(Seq::new(n, |i: int| self.milestone(id, i as u32)))
        } else {
            Err(EscrowError::E13)
        }
    }

    /// An escrow with its milestones.
    pub open spec fn state_of(self, id: u64, m: MetaView) -> Result<EscrowStateView, EscrowError> {
        match self.milestones_of(id, m.milestone_count as nat) {
            Err(e) => Err(e),
            Ok(milestones) => Ok(
                EscrowStateView {
                    escrow_id: m.escrow_id,
                    client: m.client,
                    freelancer: m.freelancer,
                    token: m.token,
                    total_amount: m.total_amount,
                    remaining_balance: m.remaining_balance,
                    status: m.status,
                    milestones,
                    arbiter: m.arbiter,
                    buyer_signers: m.buyer_signers,
                    created_at: m.created_at,
                    deadline: m.deadline,
                    lock_time: m.lock_time,
                    lock_time_extension: m.lock_time_extension,
                    timelock: m.timelock,
                    dispute_timeout_ledger: m.dispute_timeout_ledger,
                    dispute_started_ledger: m.dispute_started_ledger,
                    brief_hash: m.brief_hash,
                    multisig_approvers: m.buyer_signers,
                    multisig_weights: m.multisig_weights,
                    multisig_threshold: m.multisig_threshold,
                },
            ),
        }
    }

    /// A milestone, if it is there.
    pub open spec fn find_milestone(self, id: u64, mid: u32) -> Result<MilestoneView, EscrowError> {
        if self.has_milestone(id, mid) {
            Ok(self.milestone(id, mid))
        } else {
            Err(EscrowError::E13)
        }
    }

    /// A schedule, if it is there.
    pub open spec fn find_recurring(self, id: u64) -> Result<RecurringPaymentConfig, EscrowError> {
        if self.has_recurring(id) {
            Ok(self.recurring(id))
        } else {
            Err(EscrowError::E43)
        }
    }

    /// The weight that has signed a milestone, and the weight that it needs.
    pub open spec fn progress(self, id: u64, mid: u32) -> Outcome<(u32, u32)> {
        match self.accessed(id) {
            Err(e) => Err(e),
            Ok((env, _)) => if !env.has_meta(id) {
                Err(EscrowError::E8)
            } else if !env.has_milestone(id, mid) {
                Err(EscrowError::E13)
            } else {
                let m = env.meta(id);
                let weight = accrued(m, env.milestone(id, mid).approvals);
                if weight > u32::MAX {
                    Err(EscrowError::E20)
                } else {
                    Ok((env, (weight as u32, m.multisig_threshold)))
                }
            },
        }
    }

    /// The state of a schedule in short.
    pub open spec fn schedule_status(self, id: u64) -> Outcome<RecurringScheduleStatus> {
        match self.accessed(id) {
            Err(e) => Err(e),
            Ok((env, _)) => match env.find_recurring(id) {
                Err(e) => Err(e),
                Ok(c) => Ok(
                    (
                        env,
                        RecurringScheduleStatus {
                            is_active: !c.paused && !c.cancelled,
                            is_paused: c.paused,
                            is_cancelled: c.cancelled,
                            next_payment_at: c.next_payment_at,
                            payments_remaining: c.payments_remaining,
                            payment_amount: c.payment_amount,
                        },
                    ),
                ),
            },
        }
    }

    /// The slash records that still stand among the first `k` escrows of a list.
    pub open spec fn slashes_among(self, ids: Seq<u64>, k: nat) -> Seq<SlashView>
        decreases k,
    {
        if k == 0 {
            Seq::empty()
        } else {
            let before = self.slashes_among(ids, (k - 1) as nat);
            if self.book.slashes.contains_key(ids[k - 1]) {
                before.push(self.book.slashes[ids[k - 1]])
            } else {
                before
            }
        }
    }

    /// Collects the rent of an escrow. One whose rent has run out is wound up.
    /// The answer is what was collected.
    pub open spec fn collect(self, id: u64) -> Outcome<i128> {
        if self.config.admin is None {
            Err(EscrowError::E2)
        } else if !self.has_meta(id) {
            Err(EscrowError::E8)
        } else {
            match self.rent_collected(self.meta(id)) {
                Err(e) => Err(e),
                Ok((env, (m, amount))) => if env.rent_expired(m) {
                    match env.expired(m) {
                        Err(e) => Err(e),
                        Ok((post, _)) => Ok((post, amount)),
                    }
                } else {
                    Ok((env.saved_meta(m), amount))
                },
            }
        }
    }

    /// Pays rent for more periods. The answer is what that costs.
    pub open spec fn top_up(self, caller: Address, id: u64, periods: u64) -> Outcome<i128> {
        if self.config.admin is None {
            Err(EscrowError::E2)
        } else if self.config.paused {
            Err(EscrowError::E31)
        } else {
            match self.authed(caller).accessed(id) {
                Err(e) => Err(e),
                Ok((env, m)) => {
                    let cost = env.rent_per_period(m) * periods;
                    if caller != m.client {
                        Err(EscrowError::E5)
                    } else if periods == 0 {
                        Ok((env, 0i128))
                    } else if m.rent_balance + cost > i128::MAX {
                        Err(EscrowError::E20)
                    } else {
                        Ok(
                            (
                                env.charged(m.token, caller, cost as i128).saved_meta(
                                    MetaView {
                                        rent_balance: (m.rent_balance + cost) as i128,
                                        ..m
                                    },
                                ),
                                cost as i128,
                            ),
                        )
                    }
                },
            }
        }
    }

    /// Takes back rent over what the entries of an escrow pay in advance.
    pub open spec fn withdraw_rent(self, caller: Address, id: u64, amount: i128) -> Outcome<()> {
        if self.config.admin is None {
            Err(EscrowError::E2)
        } else if self.config.paused {
            Err(EscrowError::E31)
        } else if self.config.reentrancy_lock {
            Err(EscrowError::E22)
        } else {
            match self.authed(caller).accessed(id) {
                Err(e) => Err(e),
                Ok((env, m)) => if caller != m.client {
                    Err(EscrowError::E5)
                } else if amount <= 0 || amount > m.rent_balance - reserve(env.entries(m)) {
                    Err(EscrowError::E19)
                } else {
                    Ok(
                        (
                            env.saved_meta(
                                MetaView { rent_balance: (m.rent_balance - amount) as i128, ..m },
                            ).paid(m.token, caller, amount).told(
                                Event::RentWithdrawn { escrow_id: id, to: caller, amount },
                            ),
                            (),
                        ),
                    )
                },
            }
        }
    }
}

impl EscrowContract {
    /// Collects the rent of an escrow.
    pub fn collect_rent(env: &mut Ledger, escrow_id: u64) -> (r: Result<i128, EscrowError>)
        requires
            old(env)@.rent_ok(escrow_id),
            old(env)@.has_meta(escrow_id) ==> old(env)@.meta(escrow_id).rent_balance >= 0,
        ensures
            answers(r, old(env)@, final(env)@, old(env)@.collect(escrow_id)),
    {
        let mut tx = env.dup();
        ContractStorage::require_initialized(&tx)?;
        let mut meta = ContractStorage::load_escrow_meta(&tx, escrow_id)?;
        let amount: i128 = ContractStorage::collect_rent_due(&mut tx, &mut meta)?;
        if ContractStorage::rent_has_expired(&tx, &meta) {
            ContractStorage::expire_escrow(&mut tx, &meta)?;
            *env = tx;
            return Ok(amount);
        }
        ContractStorage::save_escrow_meta(&mut tx, &meta);
        *env = tx;
        Ok(amount)
    }

    /// The client pays rent for more periods.
    pub fn top_up_rent(
        env: &mut Ledger,
        caller: Address,
        escrow_id: u64,
        additional_periods: u64,
    ) -> (r: Result<i128, EscrowError>)
        requires
            old(env)@.rent_ok(escrow_id),
        ensures
            answers(
                r,
                old(env)@,
                final(env)@,
                old(env)@.top_up(caller, escrow_id, additional_periods),
            ),
    {
        let mut tx = env.dup();
        tx.require_auth(caller);
        ContractStorage::require_initialized(&tx)?;
        ContractStorage::require_not_paused(&tx)?;
        let mut meta = ContractStorage::load_escrow_meta_with_rent(&mut tx, escrow_id)?;
        if caller != meta.client {
            return Err(EscrowError::E5);
        }
        if additional_periods == 0 {
            *env = tx;
            return Ok(0);
        }
        let per: i128 = ContractStorage::rent_due_per_period(&tx, &meta);
        proof {
            assert(0 < per * additional_periods <= 0x1_0000_0003 * 0x1_0000_0000_0000_0000)
                by (nonlinear_arith)
                requires
                    1 <= per <= 0x1_0000_0003,
                    0 < additional_periods < 0x1_0000_0000_0000_0000,
            ;
        }
        let cost: i128 = per * additional_periods as i128;
        ContractStorage::charge_rent_reserve(&mut tx, meta.token, caller, cost);
        match meta.rent_balance.checked_add(cost) {
            None => {
                return Err(EscrowError::E20);
            },
            Some(b) => {
                meta.rent_balance = b;
            },
        }
        ContractStorage::save_escrow_meta(&mut tx, &meta);
        *env = tx;
        Ok(cost)
    }

    /// The client takes back rent that is not needed.
    pub fn withdraw_rent_overpayment(
        env: &mut Ledger,
        caller: Address,
        escrow_id: u64,
        amount: i128,
    ) -> (r: Result<(), EscrowError>)
        requires
            old(env)@.rent_ok(escrow_id),
        ensures
            answers(
                r,
                old(env)@,
                final(env)@,
                old(env)@.withdraw_rent(caller, escrow_id, amount),
            ),
    {
        let mut tx = env.dup();
        tx.require_auth(caller);
        ContractStorage::require_initialized(&tx)?;
        ContractStorage::require_not_paused(&tx)?;
        ContractStorage::require_unlocked(&tx)?;
        let mut meta = ContractStorage::load_escrow_meta_with_rent(&mut tx, escrow_id)?;
        if caller != meta.client {
            return Err(EscrowError::E5);
        }
        let entries: i128 = ContractStorage::active_storage_entries(&tx, &meta);
        let min_reserve: i128 = ContractStorage::reserve_for_entries(entries);
        let over: i128 = match meta.rent_balance.checked_sub(min_reserve) {
            Some(x) => x,
            None => i128::MIN,
        };
        if amount <= 0 || amount > over {
            return Err(EscrowError::E19);
        }
        meta.rent_balance = meta.rent_balance - amount;
        ContractStorage::save_escrow_meta(&mut tx, &meta);
        tx.pay(meta.token, caller, amount);
        tx.publish(Event::RentWithdrawn { escrow_id, to: caller, amount });
        *env = tx;
        Ok(())
    }

    /// Loads the milestones of an escrow.
    fn load_milestones(
        env: &Ledger,
        escrow_id: u64,
        count: u32,
    ) -> (r: Result<Milestones, EscrowError>)
        ensures
            match env@.milestones_of(escrow_id, count as nat) {
                Err(e) => r == Err::<Milestones, EscrowError>(e),
                Ok(ms) => r is Ok && r->Ok_0@ == ms,
            },
    {
        let mut all = Milestones::new();
        let mut mid: u32 = 0;
        while mid < count
            invariant
                mid <= count,
                all@ == Seq::new(mid as nat, |i: int| env@.milestone(escrow_id, i as u32)),
                forall|i: int|
                    0 <= i < mid ==> env@.has_milestone(escrow_id, #[trigger] (i as u32)),
            decreases count - mid,
        {
            match ContractStorage::load_milestone(env, escrow_id, mid) {
                Ok(m) => {
                    all.push(m);
                },
                Err(e) => {
                    assert(!env@.has_milestone(escrow_id, (mid as int) as u32));
                    return Err(e);
                },
            }
            mid = mid + 1;
            assert(all@ =~= Seq::new(mid as nat, |i: int| env@.milestone(escrow_id, i as u32)));
        }
        Ok(all)
    }

    /// An escrow with its milestones.
    pub fn get_escrow(env: &mut Ledger, escrow_id: u64) -> (r: Result<EscrowState, EscrowError>)
        requires
            old(env)@.rent_ok(escrow_id),
        ensures
            answers_view(
                r,
                old(env)@,
                final(env)@,
                old(env)@.looked_up(
                    escrow_id,
                    |env: LedgerView, m: MetaView| env.state_of(escrow_id, m),
                ),
            ),
    {
        let mut tx = env.dup();
        let meta = ContractStorage::load_escrow_meta_with_rent(&mut tx, escrow_id)?;
        let milestones = Self::load_milestones(&tx, escrow_id, meta.milestone_count)?;
        let state = EscrowState {
            escrow_id: meta.escrow_id,
            client: meta.client,
            freelancer: meta.freelancer,
            token: meta.token,
            total_amount: meta.total_amount,
            remaining_balance: meta.remaining_balance,
            status: meta.status,
            milestones,
            arbiter: meta.arbiter,
            buyer_signers: meta.buyer_signers.dup(),
            created_at: meta.created_at,
            deadline: meta.deadline,
            lock_time: meta.lock_time,
            lock_time_extension: meta.lock_time_extension,
            timelock: meta.timelock,
            dispute_timeout_ledger: meta.dispute_timeout_ledger,
            dispute_started_ledger: meta.dispute_started_ledger,
            brief_hash: meta.brief_hash,
            multisig_approvers: meta.buyer_signers.dup(),
            multisig_weights: meta.multisig_weights.dup(),
            multisig_threshold: meta.multisig_threshold,
        };
        *env = tx;
        Ok(state)
    }

    /// The header of an escrow.
    pub fn get_escrow_meta(env: &mut Ledger, escrow_id: u64) -> (r: Result<EscrowMeta, EscrowError>)
        requires
            old(env)@.rent_ok(escrow_id),
        ensures
            answers_view(r, old(env)@, final(env)@, old(env)@.accessed(escrow_id)),
    {
        ContractStorage::load_escrow_meta_with_rent(env, escrow_id)
    }

    /// A milestone of an escrow.
    pub fn get_milestone(
        env: &mut Ledger,
        escrow_id: u64,
        milestone_id: u32,
    ) -> (r: Result<Milestone, EscrowError>)
        requires
            old(env)@.rent_ok(escrow_id),
        ensures
            answers_view(
                r,
                old(env)@,
                final(env)@,
                old(env)@.looked_up(
                    escrow_id,
                    |env: LedgerView, m: MetaView| env.find_milestone(escrow_id, milestone_id),
                ),
            ),
    {
        let mut tx = env.dup();
        ContractStorage::ensure_live_escrow(&mut tx, escrow_id)?;
        let m = ContractStorage::load_milestone(&tx, escrow_id, milestone_id)?;
        *env = tx;
        Ok(m)
    }

    /// The signatures under a milestone.
    pub fn get_milestone_approvals(
        env: &mut Ledger,
        escrow_id: u64,
        milestone_id: u32,
    ) -> (r: Result<Approvals, EscrowError>)
        requires
            old(env)@.rent_ok(escrow_id),
        ensures
            answers_view(
                r,
                old(env)@,
                final(env)@,
                old(env)@.looked_up(
                    escrow_id,
                    |env: LedgerView, m: MetaView|
                        match env.find_milestone(escrow_id, milestone_id) {
                            Ok(ms) => Ok::<Seq<ApprovalRecord>, EscrowError>(ms.approvals),
                            Err(e) => Err(e),
                        },
                ),
            ),
    {
        let mut tx = env.dup();
        ContractStorage::ensure_live_escrow(&mut tx, escrow_id)?;
        let m = ContractStorage::load_milestone(&tx, escrow_id, milestone_id)?;
        *env = tx;
        Ok(m.approvals)
    }

    /// How much weight has signed a milestone, and how much it needs.
    pub fn get_multisig_progress(
        env: &mut Ledger,
        escrow_id: u64,
        milestone_id: u32,
    ) -> (r: Result<(u32, u32), EscrowError>)
        requires
            old(env)@.rent_ok(escrow_id),
        ensures
            answers(r, old(env)@, final(env)@, old(env)@.progress(escrow_id, milestone_id)),
    {
        let mut tx = env.dup();
        ContractStorage::ensure_live_escrow(&mut tx, escrow_id)?;
        let meta = ContractStorage::load_escrow_meta(&tx, escrow_id)?;
        let milestone = ContractStorage::load_milestone(&tx, escrow_id, milestone_id)?;
        let weight: u32 = Self::accrued_approval_weight(&meta, &milestone)?;
        *env = tx;
        Ok((weight, meta.multisig_threshold))
    }

    /// The schedule of an escrow.
    pub fn get_recurring_config(
        env: &mut Ledger,
        escrow_id: u64,
    ) -> (r: Result<RecurringPaymentConfig, EscrowError>)
        requires
            old(env)@.rent_ok(escrow_id),
        ensures
            answers(
                r,
                old(env)@,
                final(env)@,
                old(env)@.looked_up(
                    escrow_id,
                    |env: LedgerView, m: MetaView| env.find_recurring(escrow_id),
                ),
            ),
    {
        let mut tx = env.dup();
        ContractStorage::ensure_live_escrow(&mut tx, escrow_id)?;
        let c = ContractStorage::load_recurring_config(&tx, escrow_id)?;
        *env = tx;
        Ok(c)
    }

    /// The state of a schedule in short.
    pub fn get_recurring_schedule_status(
        env: &mut Ledger,
        escrow_id: u64,
    ) -> (r: Result<RecurringScheduleStatus, EscrowError>)
        requires
            old(env)@.rent_ok(escrow_id),
        ensures
            answers(r, old(env)@, final(env)@, old(env)@.schedule_status(escrow_id)),
    {
        let mut tx = env.dup();
        ContractStorage::ensure_live_escrow(&mut tx, escrow_id)?;
        let c = ContractStorage::load_recurring_config(&tx, escrow_id)?;
        *env = tx;
        Ok(
            RecurringScheduleStatus {
                is_active: !c.paused && !c.cancelled,
                is_paused: c.paused,
                is_cancelled: c.cancelled,
                next_payment_at: c.next_payment_at,
                payments_remaining: c.payments_remaining,
                payment_amount: c.payment_amount,
            },
        )
    }

    /// The cancellation request of an escrow.
    pub fn get_cancellation_request(
        env: &mut Ledger,
        escrow_id: u64,
    ) -> (r: Result<CancellationRequest, EscrowError>)
        requires
            old(env)@.rent_ok(escrow_id),
        ensures
            answers_view(
                r,
                old(env)@,
                final(env)@,
                old(env)@.looked_up(
                    escrow_id,
                    |env: LedgerView, m: MetaView|
                        if env.book.cancellations.contains_key(escrow_id) {
                            Ok::<CancellationView, EscrowError>(env.book.cancellations[escrow_id])
                        } else {
                            Err(EscrowError::E32)
                        },
                ),
            ),
    {
        let mut tx = env.dup();
        ContractStorage::ensure_live_escrow(&mut tx, escrow_id)?;
        let c = ContractStorage::load_cancellation_request(&tx, escrow_id)?;
        *env = tx;
        Ok(c)
    }

    /// The slash record of an escrow.
    pub fn get_slash_record(
        env: &mut Ledger,
        escrow_id: u64,
    ) -> (r: Result<SlashRecord, EscrowError>)
        requires
            old(env)@.rent_ok(escrow_id),
        ensures
            answers_view(
                r,
                old(env)@,
                final(env)@,
                old(env)@.looked_up(
                    escrow_id,
                    |env: LedgerView, m: MetaView|
                        if env.book.slashes.contains_key(escrow_id) {
                            Ok::<SlashView, EscrowError>(env.book.slashes[escrow_id])
                        } else {
                            Err(EscrowError::E38)
                        },
                ),
            ),
    {
        let mut tx = env.dup();
        ContractStorage::ensure_live_escrow(&mut tx, escrow_id)?;
        let s = ContractStorage::load_slash_record(&tx, escrow_id)?;
        *env = tx;
        Ok(s)
    }

    /// A page of the escrows that somebody takes part in.
    pub fn get_escrow_ids_by_participant(
        env: &Ledger,
        participant: Address,
        offset: u32,
        limit: u32,
    ) -> (r: Ids)
        ensures
            r@ == page(
                listed(env@.book.by_participant, participant),
                offset as int,
                limit as int,
                MAX_PAGE as int,
            ),
    {
        let ids = list_ids(&env.book.by_participant, &env.host, participant);
        page_of(&ids, &env.host, offset, limit, MAX_PAGE)
    }

    /// A page of the escrows in a status.
    pub fn get_escrow_ids_by_status(
        env: &Ledger,
        status: EscrowStatus,
        offset: u32,
        limit: u32,
    ) -> (r: Ids)
        ensures
            r@ == page(
                listed(env@.book.by_status, status),
                offset as int,
                limit as int,
                MAX_PAGE as int,
            ),
    {
        let ids = list_ids(&env.book.by_status, &env.host, status);
        page_of(&ids, &env.host, offset, limit, MAX_PAGE)
    }

    /// The escrows that somebody has asked to cancel.
    pub fn list_cancellations_by_requester(env: &Ledger, requester: Address) -> (r: Ids)
        ensures
            r@ == listed(env@.book.by_requester, requester),
    {
        list_ids(&env.book.by_requester, &env.host, requester)
    }

    /// The slash records that stand against somebody.
    pub fn get_slash_records_by_address(env: &Ledger, slashed_user: Address) -> (r: SlashRecords)
        ensures
            r@ == env@.slashes_among(
                listed(env@.book.by_slashed, slashed_user),
                listed(env@.book.by_slashed, slashed_user).len(),
            ),
    {
        let ids = list_ids(&env.book.by_slashed, &env.host, slashed_user);
        let n: u32 = ids.len();
        let mut all = SlashRecords::new();
        let mut i: u32 = 0;
        while i < n
            invariant
                i <= n,
                n == ids@.len(),
                all@ == env@.slashes_among(ids@, i as nat),
            decreases n - i,
        {
            if let Some(id) = ids.get(i) {
                match ContractStorage::load_slash_record(env, id) {
                    Ok(s) => {
                        all.push(s);
                    },
                    Err(_) => {},
                }
            }
            i = i + 1;
        }
        all
    }

    /// What is known of how an address behaved.
    pub fn get_reputation(
        env: &Ledger,
        address: Address,
    ) -> (r: Result<ReputationRecord, EscrowError>)
        ensures
            r == Ok::<ReputationRecord, EscrowError>(env@.reputation(address)),
    {
        Ok(ContractStorage::load_reputation(env, address))
    }

    /// How many escrows were created.
    pub fn escrow_count(env: &Ledger) -> (r: u64)
        ensures
            r == env@.config.escrow_counter,
    {
        env.config.escrow_counter
    }

    /// The status steps of an escrow.
    pub fn get_state_history(env: &Ledger, escrow_id: u64) -> (r: StateHistory)
        ensures
            r@ == env@.steps(escrow_id),
    {
        match env.book.history.get(escrow_id) {
            Some(s) => s,
            None => StateHistory::new(),
        }
    }

    /// The deadline that one party has proposed, or zero.
    pub fn get_pending_extension_deadline(env: &Ledger, escrow_id: u64) -> (r: u64)
        ensures
            r == (if env@.book.pending_deadlines.contains_key(escrow_id) {
                env@.book.pending_deadlines[escrow_id]
            } else {
                0
            }),
    {
        match env.book.pending_deadlines.get(escrow_id) {
            Some(d) => d,
            None => 0,
        }
    }

    /// The price of an asset.
    pub fn get_price(env: &Ledger, asset: Address) -> (r: Result<i128, EscrowError>)
        ensures
            r == (if env@.config.admin is None {
                Err(EscrowError::E2)
            } else {
                env@.price(asset)
            }),
    {
        ContractStorage::require_initialized(env)?;
        env.price_of(asset)
    }

    /// Whether the contract is paused.
    pub fn is_paused(env: &Ledger) -> (r: bool)
        ensures
            r == env@.config.paused,
    {
        env.config.paused
    }

    /// Whether an arbiter is on the allowlist.
    pub fn is_arbiter_allowed(env: &Ledger, arbiter: Address) -> (r: bool)
        ensures
            r == env@.is_allowed(arbiter),
    {
        env.book.allowlist.has(arbiter)
    }

    /// The admin.
    pub fn get_admin(env: &Ledger) -> (r: Result<Address, EscrowError>)
        ensures
            r == (match env@.config.admin {
                Some(a) => Ok(a),
                None => Err::<Address, EscrowError>(EscrowError::E2),
            }),
    {
        match env.config.admin {
            Some(a) => Ok(a),
            None => Err(EscrowError::E2),
        }
    }

    /// The signers of the admins.
    pub fn get_admin_signers(env: &Ledger) -> (r: Result<Ids, EscrowError>)
        ensures
            env@.config.admin is None || env@.config.admin_signers is None ==> r == Err::<
                Ids,
                EscrowError,
            >(EscrowError::E2),
            env@.config.admin is Some && env@.config.admin_signers is Some ==> r is Ok
                && r->Ok_0@ == env@.config.admin_signers->Some_0,
    {
        ContractStorage::require_initialized(env)?;
        match &env.config.admin_signers {
            Some(s) => Ok(s.dup()),
            None => Err(EscrowError::E2),
        }
    }

    /// How many signers of the admins have to sign.
    pub fn get_admin_threshold(env: &Ledger) -> (r: Result<u32, EscrowError>)
        ensures
            r == (if env@.config.admin is None {
                Err::<u32, EscrowError>(EscrowError::E2)
            } else {
                Ok(env@.signer_threshold())
            }),
    {
        ContractStorage::require_initialized(env)?;
        match env.config.admin_threshold {
            Some(t) => Ok(t),
            None => Ok(1),
        }
    }

    /// The treasury.
    pub fn get_platform_treasury(env: &Ledger) -> (r: Option<Address>)
        ensures
            r == env@.config.platform_treasury,
    {
        env.config.platform_treasury
    }

    /// The governance contract.
    pub fn get_governance_contract(env: &Ledger) -> (r: Option<Address>)
        ensures
            r == env@.config.governance_contract,
    {
        env.config.governance_contract
    }

    /// The version of the code that runs.
    pub fn get_contract_version(env: &Ledger) -> (r: Result<ContractVersionInfo, EscrowError>)
        ensures
            r == (if env@.config.admin is None || env@.config.contract_version is None {
                Err::<ContractVersionInfo, EscrowError>(EscrowError::E2)
            } else {
                Ok(env@.config.contract_version->Some_0)
            }),
    {
        ContractStorage::require_initialized(env)?;
        match env.config.contract_version {
            Some(v) => Ok(v),
            None => Err(EscrowError::E2),
        }
    }

    /// What is known of a bridged token.
    pub fn get_wrapped_token_info(env: &Ledger, token: Address) -> (r: Option<WrappedTokenInfo>)
        ensures
            r is Some <==> env@.config.wrapped_tokens.contains_key(token),
            r matches Some(t) ==> t@ == env@.config.wrapped_tokens[token],
    {
        env.config.wrapped_tokens.get(token)
    }

    /// How far a bridged token has been confirmed.
    pub fn get_bridge_confirmation(env: &Ledger, token: Address) -> (r: Option<BridgeConfirmation>)
        ensures
            r == (if env@.config.bridge_confirmations.contains_key(token) {
                Some(env@.config.bridge_confirmations[token])
            } else {
                None
            }),
    {
        env.config.bridge_confirmations.get(token)
    }
}

} // verus!
