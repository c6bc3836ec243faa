//! Access to single entries, and the rent that they cost.
use vstd::prelude::*;

use crate::constants::{RENT_PERIOD_SECONDS, RENT_PER_ENTRY_PER_PERIOD, RENT_RESERVE_PERIODS};
use crate::errors::EscrowError;
use crate::events::Event;
use crate::index::{appended, append_id, dropped, listed, remove_id};
use crate::ledger::{BookView, ConfigView, Ledger, LedgerView, Outcome};
use crate::store::Record;
use crate::types::{
    Address, CancellationRequest, CancellationView, EscrowFeeSnapshot, EscrowMeta, EscrowStatus,
    MetaView, Milestone, MilestoneView, PackedDataKey, RecurringPaymentConfig, ReputationRecord,
    SlashRecord, SlashView, StateHistory, StateHistoryEntry,
};

verus! {

/// The smaller of two numbers.
pub open spec fn min(a: int, b: int) -> int {
    if a < b {
        a
    } else {
        b
    }
}

/// How many whole rent periods lie between two timestamps.
pub open spec fn rent_periods(now: u64, last: u64) -> int {
    if now <= last {
        0
    } else {
        (now - last) / RENT_PERIOD_SECONDS as int
    }
}

/// What `entries` new entries pay in advance.
pub open spec fn reserve(entries: int) -> int {
    entries * RENT_PER_ENTRY_PER_PERIOD * RENT_RESERVE_PERIODS
}

impl LedgerView {
    pub open spec fn has_meta(self, id: u64) -> bool {
        self.book.metas.contains_key(PackedDataKey::EscrowMeta(id))
    }

    pub open spec fn meta(self, id: u64) -> MetaView {
        self.book.metas[PackedDataKey::EscrowMeta(id)]
    }

    pub open spec fn has_milestone(self, id: u64, mid: u32) -> bool {
        self.book.milestones.contains_key(PackedDataKey::Milestone(id, mid))
    }

    pub open spec fn milestone(self, id: u64, mid: u32) -> MilestoneView {
        self.book.milestones[PackedDataKey::Milestone(id, mid)]
    }

    pub open spec fn has_recurring(self, id: u64) -> bool {
        self.book.recurring.contains_key(PackedDataKey::RecurringConfig(id))
    }

    pub open spec fn recurring(self, id: u64) -> RecurringPaymentConfig {
        self.book.recurring[PackedDataKey::RecurringConfig(id)]
    }

    /// A schedule stands on an escrow that has payments to make.
    pub open spec fn scheduled(self, id: u64) -> bool {
        self.has_recurring(id) && !self.recurring(id).cancelled && self.recurring(
            id,
        ).payments_remaining > 0
    }

    pub open spec fn is_frozen(self, id: u64) -> bool {
        self.book.frozen.contains_key(id) && self.book.frozen[id]
    }

    /// An arbiter may act if it is on the allowlist.
    pub open spec fn is_allowed(self, arbiter: Address) -> bool {
        self.book.allowlist.contains_key(arbiter)
    }

    /// Why `who` may not act as the admin, if so.
    pub open spec fn admin_check(self, who: Address) -> Result<(), EscrowError> {
        match self.config.admin {
            None => Err(EscrowError::E2),
            Some(admin) => if who != admin {
                Err(EscrowError::E4)
            } else {
                Ok(())
            },
        }
    }

    /// The state with an escrow's header written.
    pub open spec fn saved_meta(self, m: MetaView) -> LedgerView {
        self.with_book(
            BookView {
                metas: self.book.metas.insert(PackedDataKey::EscrowMeta(m.escrow_id), m),
                ..self.book
            },
        )
    }

    /// The state with a milestone written.
    pub open spec fn saved_milestone(self, id: u64, m: MilestoneView) -> LedgerView {
        self.with_book(
            BookView {
                milestones: self.book.milestones.insert(PackedDataKey::Milestone(id, m.id), m),
                ..self.book
            },
        )
    }

    /// The state with a schedule written.
    pub open spec fn saved_recurring(self, id: u64, c: RecurringPaymentConfig) -> LedgerView {
        self.with_book(
            BookView {
                recurring: self.book.recurring.insert(PackedDataKey::RecurringConfig(id), c),
                ..self.book
            },
        )
    }

    /// The fee snapshot of an escrow; where there is none, nothing is owed.
    pub open spec fn fee_snapshot(self, id: u64) -> EscrowFeeSnapshot {
        if self.book.fee_snapshots.contains_key(id) {
            self.book.fee_snapshots[id]
        } else {
            EscrowFeeSnapshot { fee_bps: 0, fee_amount: 0, collected: true }
        }
    }

    pub open spec fn saved_fee_snapshot(self, id: u64, s: EscrowFeeSnapshot) -> LedgerView {
        self.with_book(
            BookView { fee_snapshots: self.book.fee_snapshots.insert(id, s), ..self.book },
        )
    }

    pub open spec fn removed_fee_snapshot(self, id: u64) -> LedgerView {
        self.with_book(BookView { fee_snapshots: self.book.fee_snapshots.remove(id), ..self.book })
    }

    /// The record of an address; where there is none, an empty one.
    pub open spec fn reputation(self, who: Address) -> ReputationRecord {
        if self.book.reputations.contains_key(who) {
            self.book.reputations[who]
        } else {
            ReputationRecord {
                address: who,
                total_score: 0,
                completed_escrows: 0,
                disputed_escrows: 0,
                disputes_won: 0,
                total_volume: 0,
                slash_count: 0,
                total_slashed: 0,
                last_updated: self.timestamp,
            }
        }
    }

    pub open spec fn saved_reputation(self, r: ReputationRecord) -> LedgerView {
        self.with_book(
            BookView { reputations: self.book.reputations.insert(r.address, r), ..self.book },
        )
    }

    pub open spec fn saved_cancellation(self, c: CancellationView) -> LedgerView {
        self.with_book(
            BookView { cancellations: self.book.cancellations.insert(c.escrow_id, c), ..self.book },
        )
    }

    pub open spec fn removed_cancellation(self, id: u64) -> LedgerView {
        self.with_book(BookView { cancellations: self.book.cancellations.remove(id), ..self.book })
    }

    pub open spec fn saved_slash(self, s: SlashView) -> LedgerView {
        self.with_book(
            BookView { slashes: self.book.slashes.insert(s.escrow_id, s), ..self.book },
        )
    }

    pub open spec fn removed_slash(self, id: u64) -> LedgerView {
        self.with_book(BookView { slashes: self.book.slashes.remove(id), ..self.book })
    }

    /// The status steps of an escrow so far.
    pub open spec fn steps(self, id: u64) -> Seq<StateHistoryEntry> {
        if self.book.history.contains_key(id) {
            self.book.history[id]
        } else {
            Seq::empty()
        }
    }

    /// The state with one more status step of an escrow.
    pub open spec fn stepped(
        self,
        id: u64,
        from: EscrowStatus,
        to: EscrowStatus,
        actor: Option<Address>,
    ) -> LedgerView {
        let entry = StateHistoryEntry {
            from_status: from,
            to_status: to,
            actor,
            timestamp: self.timestamp,
        };
        self.with_book(
            BookView {
                history: self.book.history.insert(id, self.steps(id).push(entry)),
                ..self.book
            },
        )
    }

    /// The state with an escrow listed under a participant.
    pub open spec fn joined(self, who: Address, id: u64) -> LedgerView {
        self.with_book(
            BookView { by_participant: appended(self.book.by_participant, who, id), ..self.book },
        )
    }

    /// The state with an escrow no longer listed under a participant.
    pub open spec fn left(self, who: Address, id: u64) -> LedgerView {
        self.with_book(
            BookView { by_participant: dropped(self.book.by_participant, who, id), ..self.book },
        )
    }

    /// The state with an escrow listed under a status.
    pub open spec fn entered(self, status: EscrowStatus, id: u64) -> LedgerView {
        self.with_book(
            BookView { by_status: appended(self.book.by_status, status, id), ..self.book },
        )
    }

    /// The state with an escrow moved from the list of one status to that of
    /// another.
    pub open spec fn moved(self, id: u64, from: EscrowStatus, to: EscrowStatus) -> LedgerView {
        self.with_book(
            BookView {
                by_status: appended(dropped(self.book.by_status, from, id), to, id),
                ..self.book
            },
        )
    }

    /// Every list of ids can grow by `n`.
    pub open spec fn room(self, n: int) -> bool {
        &&& forall|k: Address|
            (#[trigger] listed(self.book.by_participant, k)).len() + n <= u32::MAX
        &&& forall|k: EscrowStatus|
            (#[trigger] listed(self.book.by_status, k)).len() + n <= u32::MAX
        &&& forall|k: Address| (#[trigger] listed(self.book.by_requester, k)).len() + n <= u32::MAX
        &&& forall|k: Address| (#[trigger] listed(self.book.by_slashed, k)).len() + n <= u32::MAX
    }

    /// How many entries an escrow has.
    pub open spec fn entries(self, m: MetaView) -> int {
        1 + m.milestone_count + (if self.has_recurring(m.escrow_id) {
            1int
        } else {
            0
        }) + (if self.book.cancellations.contains_key(m.escrow_id) {
            1int
        } else {
            0
        }) + (if self.book.slashes.contains_key(m.escrow_id) {
            1int
        } else {
            0
        })
    }

    /// What an escrow costs for one period.
    pub open spec fn rent_per_period(self, m: MetaView) -> int {
        self.entries(m) * RENT_PER_ENTRY_PER_PERIOD
    }

    /// The rent that an escrow has left does not cover the whole periods since
    /// the last collection.
    pub open spec fn rent_expired(self, m: MetaView) -> bool {
        let elapsed = rent_periods(self.timestamp, m.last_rent_collection_at);
        elapsed > 0 && elapsed > m.rent_balance as int / self.rent_per_period(m)
    }

    /// When the rent that an escrow has left runs out.
    pub open spec fn rent_end(self, m: MetaView) -> int {
        m.last_rent_collection_at + (m.rent_balance as int / self.rent_per_period(m) + 1)
            * RENT_PERIOD_SECONDS
    }

    /// The rent of an escrow, where some is due, runs out within the range of
    /// timestamps.
    pub open spec fn rent_fits(self, m: MetaView) -> bool {
        rent_periods(self.timestamp, m.last_rent_collection_at) > 0 ==> self.rent_end(m) <= u64::MAX
    }

    /// The same for an escrow by its id, if there is one.
    pub open spec fn rent_ok(self, id: u64) -> bool {
        self.has_meta(id) ==> self.rent_fits(self.meta(id))
    }

    /// Collects what is due for whole periods, as far as the prepaid rent goes,
    /// and hands it to the admin. The answer is the header after that and what
    /// was collected; the header is not written.
    pub open spec fn rent_collected(self, m: MetaView) -> Outcome<(MetaView, i128)> {
        let elapsed = rent_periods(self.timestamp, m.last_rent_collection_at);
        let per = self.rent_per_period(m);
        let amount = min(per * elapsed, m.rent_balance as int) as i128;
        if elapsed == 0 {
            Ok((self, (m, 0i128)))
        } else if amount > 0 && self.config.admin is None {
            Err(EscrowError::E2)
        } else {
            let post = MetaView {
                rent_balance: (m.rent_balance - amount) as i128,
                last_rent_collection_at: (m.last_rent_collection_at + (amount as int / per)
                    * RENT_PERIOD_SECONDS) as u64,
                ..m
            };
            let paid = if amount > 0 {
                self.paid(m.token, self.config.admin->Some_0, amount)
            } else {
                self
            };
            Ok(
                (
                    paid.told(
                        Event::RentCollected {
                            escrow_id: m.escrow_id,
                            collected: amount,
                            rent_balance: post.rent_balance,
                            expires_at: self.rent_end(post) as u64,
                        },
                    ),
                    (post, amount),
                ),
            )
        }
    }

    /// Collects the rent of an escrow that somebody looks at, and writes its
    /// header. An escrow whose rent has run out is as good as gone.
    pub open spec fn settled(self, m: MetaView) -> Outcome<(MetaView, i128)> {
        if self.rent_expired(m) {
            Err(EscrowError::E8)
        } else {
            match self.rent_collected(m) {
                Err(e) => Err(e),
                Ok((post, (m2, amount))) => Ok((post.saved_meta(m2), (m2, amount))),
            }
        }
    }

    /// Looks up an escrow and settles its rent.
    pub open spec fn accessed(self, id: u64) -> Outcome<MetaView> {
        if !self.has_meta(id) {
            Err(EscrowError::E8)
        } else {
            match self.settled(self.meta(id)) {
                Err(e) => Err(e),
                Ok((post, (m, _))) => Ok((post, m)),
            }
        }
    }

    /// The state without the first `n` milestones of an escrow.
    pub open spec fn cleared(self, id: u64, n: nat) -> LedgerView
        decreases n,
    {
        if n == 0 {
            self
        } else {
            let before = self.cleared(id, (n - 1) as nat);
            before.with_book(
                BookView {
                    milestones: before.book.milestones.remove(
                        PackedDataKey::Milestone(id, (n - 1) as u32),
                    ),
                    ..before.book
                },
            )
        }
    }

    /// Gives back what an escrow has left and removes its entries.
    pub open spec fn expired(self, m: MetaView) -> Outcome<()> {
        let refund = m.remaining_balance + m.rent_balance;
        if refund > i128::MAX || refund < i128::MIN {
            Err(EscrowError::E20)
        } else {
            let paid = if refund > 0 {
                self.paid(m.token, m.client, refund as i128)
            } else {
                self
            };
            let bare = paid.cleared(m.escrow_id, m.milestone_count as nat);
            let gone = bare.with_book(
                BookView {
                    recurring: bare.book.recurring.remove(
                        PackedDataKey::RecurringConfig(m.escrow_id),
                    ),
                    cancellations: bare.book.cancellations.remove(m.escrow_id),
                    slashes: bare.book.slashes.remove(m.escrow_id),
                    metas: bare.book.metas.remove(PackedDataKey::EscrowMeta(m.escrow_id)),
                    ..bare.book
                },
            );
            Ok(
                (
                    gone.told(
                        Event::RentExpired {
                            escrow_id: m.escrow_id,
                            refund: refund as i128,
                            remaining_balance: m.remaining_balance,
                        },
                    ),
                    (),
                ),
            )
        }
    }
}

/// Access to the entries of the contract.
pub struct ContractStorage;

impl ContractStorage {
    pub fn require_initialized(env: &Ledger) -> (r: Result<(), EscrowError>)
        ensures
            r == (if env@.config.admin is None {
                Err::<(), EscrowError>(EscrowError::E2)
            } else {
                Ok(())
            }),
    {
        if env.config.admin.is_none() {
            return Err(EscrowError::E2);
        }
        Ok(())
    }

    pub fn require_admin(env: &Ledger, caller: Address) -> (r: Result<(), EscrowError>)
        ensures
            r == env@.admin_check(caller),
    {
        match env.config.admin {
            None => Err(EscrowError::E2),
            Some(admin) => {
                if caller != admin {
                    Err(EscrowError::E4)
                } else {
                    Ok(())
                }
            },
        }
    }

    pub fn is_esc_frz(env: &Ledger, escrow_id: u64) -> (r: bool)
        ensures
            r == env@.is_frozen(escrow_id),
    {
        match env.book.frozen.get(escrow_id) {
            Some(b) => b,
            None => false,
        }
    }

    pub fn require_not_frozen(env: &Ledger, escrow_id: u64) -> (r: Result<(), EscrowError>)
        ensures
            r == (if env@.is_frozen(escrow_id) {
                Err::<(), EscrowError>(EscrowError::E61)
            } else {
                Ok(())
            }),
    {
        if Self::is_esc_frz(env, escrow_id) {
            return Err(EscrowError::E61);
        }
        Ok(())
    }

    pub fn require_not_paused(env: &Ledger) -> (r: Result<(), EscrowError>)
        ensures
            r == (if env@.config.paused {
                Err::<(), EscrowError>(EscrowError::E31)
            } else {
                Ok(())
            }),
    {
        if env.config.paused {
            return Err(EscrowError::E31);
        }
        Ok(())
    }

    /// Refuses a guarded request while another one is being paid out.
    pub fn require_unlocked(env: &Ledger) -> (r: Result<(), EscrowError>)
        ensures
            r == (if env@.config.reentrancy_lock {
                Err::<(), EscrowError>(EscrowError::E22)
            } else {
                Ok(())
            }),
    {
        if env.config.reentrancy_lock {
            return Err(EscrowError::E22);
        }
        Ok(())
    }

    /// Hands out the next escrow id.
    pub fn next_escrow_id(env: &mut Ledger) -> (id: u64)
        requires
            old(env)@.config.escrow_counter < u64::MAX,
        ensures
            id == old(env)@.config.escrow_counter,
            final(env)@ == old(env)@.with_config(
                (ConfigView {
                    escrow_counter: (old(env)@.config.escrow_counter + 1) as u64,
                    ..old(env)@.config
                }),
            ),
    {
        let id: u64 = env.config.escrow_counter;
        env.config.escrow_counter = id + 1;
        id
    }

    pub fn load_escrow_meta(env: &Ledger, escrow_id: u64) -> (r: Result<EscrowMeta, EscrowError>)
        ensures
            env@.has_meta(escrow_id) ==> r is Ok && r->Ok_0@ == env@.meta(escrow_id),
            !env@.has_meta(escrow_id) ==> r == Err::<EscrowMeta, EscrowError>(EscrowError::E8),
    {
        match env.book.metas.get(PackedDataKey::EscrowMeta(escrow_id)) {
            Some(m) => Ok(m),
            None => Err(EscrowError::E8),
        }
    }

    pub fn save_escrow_meta(env: &mut Ledger, meta: &EscrowMeta)
        ensures
            final(env)@ == old(env)@.saved_meta(meta@),
    {
        env.book.metas.set(PackedDataKey::EscrowMeta(meta.escrow_id), meta.dup());
    }

    pub fn load_milestone(
        env: &Ledger,
        escrow_id: u64,
        milestone_id: u32,
    ) -> (r: Result<Milestone, EscrowError>)
        ensures
            env@.has_milestone(escrow_id, milestone_id) ==> r is Ok && r->Ok_0@ == env@.milestone(
                escrow_id,
                milestone_id,
            ),
            !env@.has_milestone(escrow_id, milestone_id) ==> r == Err::<Milestone, EscrowError>(
                EscrowError::E13,
            ),
    {
        match env.book.milestones.get(PackedDataKey::Milestone(escrow_id, milestone_id)) {
            Some(m) => Ok(m),
            None => Err(EscrowError::E13),
        }
    }

    pub fn save_milestone(env: &mut Ledger, escrow_id: u64, milestone: &Milestone)
        ensures
            final(env)@ == old(env)@.saved_milestone(escrow_id, milestone@),
    {
        env.book.milestones.set(
            PackedDataKey::Milestone(escrow_id, milestone.id),
            milestone.dup(),
        );
    }

    pub fn load_recurring_config(
        env: &Ledger,
        escrow_id: u64,
    ) -> (r: Result<RecurringPaymentConfig, EscrowError>)
        ensures
            r == (if env@.has_recurring(escrow_id) {
                Ok(env@.recurring(escrow_id))
            } else {
                Err::<RecurringPaymentConfig, EscrowError>(EscrowError::E43)
            }),
    {
        match env.book.recurring.get(PackedDataKey::RecurringConfig(escrow_id)) {
            Some(c) => Ok(c),
            None => Err(EscrowError::E43),
        }
    }

    /// Finds out whether a schedule still has payments to make.
    pub(crate) fn has_payments_left(env: &Ledger, escrow_id: u64) -> (r: bool)
        ensures
            r == env@.scheduled(escrow_id),
    {
        match env.book.recurring.get(PackedDataKey::RecurringConfig(escrow_id)) {
            Some(c) => !c.cancelled && c.payments_remaining > 0,
            None => false,
        }
    }

    pub fn save_recurring_config(env: &mut Ledger, escrow_id: u64, config: &RecurringPaymentConfig)
        ensures
            final(env)@ == old(env)@.saved_recurring(escrow_id, *config),
    {
        env.book.recurring.set(PackedDataKey::RecurringConfig(escrow_id), *config);
    }

    pub fn load_fee_snapshot(env: &Ledger, escrow_id: u64) -> (r: EscrowFeeSnapshot)
        ensures
            r == env@.fee_snapshot(escrow_id),
    {
        match env.book.fee_snapshots.get(escrow_id) {
            Some(s) => s,
            None => EscrowFeeSnapshot { fee_bps: 0, fee_amount: 0, collected: true },
        }
    }

    pub fn save_fee_snapshot(env: &mut Ledger, escrow_id: u64, snapshot: &EscrowFeeSnapshot)
        ensures
            final(env)@ == old(env)@.saved_fee_snapshot(escrow_id, *snapshot),
    {
        env.book.fee_snapshots.set(escrow_id, *snapshot);
    }

    pub fn remove_fee_snapshot(env: &mut Ledger, escrow_id: u64)
        ensures
            final(env)@ == old(env)@.removed_fee_snapshot(escrow_id),
    {
        env.book.fee_snapshots.remove(escrow_id);
    }

    pub fn load_reputation(env: &Ledger, address: Address) -> (r: ReputationRecord)
        ensures
            r == env@.reputation(address),
    {
        match env.book.reputations.get(address) {
            Some(r) => r,
            None => ReputationRecord {
                address,
                total_score: 0,
                completed_escrows: 0,
                disputed_escrows: 0,
                disputes_won: 0,
                total_volume: 0,
                slash_count: 0,
                total_slashed: 0,
                last_updated: env.timestamp,
            },
        }
    }

    pub fn save_reputation(env: &mut Ledger, record: &ReputationRecord)
        ensures
            final(env)@ == old(env)@.saved_reputation(*record),
    {
        env.book.reputations.set(record.address, *record);
    }

    pub fn load_cancellation_request(
        env: &Ledger,
        escrow_id: u64,
    ) -> (r: Result<CancellationRequest, EscrowError>)
        ensures
            env@.book.cancellations.contains_key(escrow_id) ==> r is Ok && r->Ok_0@
                == env@.book.cancellations[escrow_id],
            !env@.book.cancellations.contains_key(escrow_id) ==> r == Err::<
                CancellationRequest,
                EscrowError,
            >(EscrowError::E32),
    {
        match env.book.cancellations.get(escrow_id) {
            Some(c) => Ok(c),
            None => Err(EscrowError::E32),
        }
    }

    pub fn save_cancellation_request(env: &mut Ledger, request: &CancellationRequest)
        ensures
            final(env)@ == old(env)@.saved_cancellation(request@),
    {
        env.book.cancellations.set(request.escrow_id, request.dup());
    }

    pub fn remove_cancellation_request(env: &mut Ledger, escrow_id: u64)
        ensures
            final(env)@ == old(env)@.removed_cancellation(escrow_id),
    {
        env.book.cancellations.remove(escrow_id);
    }

    pub fn load_slash_record(env: &Ledger, escrow_id: u64) -> (r: Result<SlashRecord, EscrowError>)
        ensures
            env@.book.slashes.contains_key(escrow_id) ==> r is Ok && r->Ok_0@
                == env@.book.slashes[escrow_id],
            !env@.book.slashes.contains_key(escrow_id) ==> r == Err::<SlashRecord, EscrowError>(
                EscrowError::E38,
            ),
    {
        match env.book.slashes.get(escrow_id) {
            Some(c) => Ok(c),
            None => Err(EscrowError::E38),
        }
    }

    pub fn save_slash_record(env: &mut Ledger, record: &SlashRecord)
        ensures
            final(env)@ == old(env)@.saved_slash(record@),
    {
        env.book.slashes.set(record.escrow_id, record.dup());
    }

    pub fn remove_slash_record(env: &mut Ledger, escrow_id: u64)
        ensures
            final(env)@ == old(env)@.removed_slash(escrow_id),
    {
        env.book.slashes.remove(escrow_id);
    }

    /// Notes a status step.
    pub fn record_state_change(
        env: &mut Ledger,
        escrow_id: u64,
        from: EscrowStatus,
        to: EscrowStatus,
        actor: Option<Address>,
    )
        ensures
            final(env)@ == old(env)@.stepped(escrow_id, from, to, actor),
    {
        let mut steps = match env.book.history.get(escrow_id) {
            Some(s) => s,
            None => StateHistory::new(),
        };
        steps.items.push(
            StateHistoryEntry {
                from_status: from,
                to_status: to,
                actor,
                timestamp: env.timestamp,
            },
        );
        env.book.history.set(escrow_id, steps);
    }

    /// Moves an escrow from the list of one status to that of another.
    pub fn move_status(env: &mut Ledger, escrow_id: u64, from: EscrowStatus, to: EscrowStatus)
        requires
            listed(old(env)@.book.by_status, to).len() < u32::MAX,
        ensures
            final(env)@ == old(env)@.moved(escrow_id, from, to),
    {
        remove_id(&mut env.book.by_status, &env.host, from, escrow_id);
        proof {
            if old(env)@.book.by_status.contains_key(from) {
                crate::index::lemma_without_len(old(env)@.book.by_status[from], escrow_id);
            }
        }
        append_id(&mut env.book.by_status, &env.host, to, escrow_id);
    }

    pub fn active_storage_entries(env: &Ledger, meta: &EscrowMeta) -> (n: i128)
        ensures
            n == env@.entries(meta@),
    {
        let mut entries: i128 = 1 + meta.milestone_count as i128;
        if env.book.recurring.has(PackedDataKey::RecurringConfig(meta.escrow_id)) {
            entries = entries + 1;
        }
        if env.book.cancellations.has(meta.escrow_id) {
            entries = entries + 1;
        }
        if env.book.slashes.has(meta.escrow_id) {
            entries = entries + 1;
        }
        entries
    }

    pub fn rent_due_per_period(env: &Ledger, meta: &EscrowMeta) -> (n: i128)
        ensures
            n == env@.rent_per_period(meta@),
            1 <= n <= u32::MAX + 4,
    {
        Self::active_storage_entries(env, meta) * RENT_PER_ENTRY_PER_PERIOD
    }

    /// What `entries` new entries pay in advance. Counts whose reserve does not
    /// fit are left out.
    pub fn reserve_for_entries(entries: i128) -> (r: i128)
        requires
            i128::MIN <= reserve(entries as int) <= i128::MAX,
        ensures
            r == reserve(entries as int),
    {
        entries * RENT_PER_ENTRY_PER_PERIOD * RENT_RESERVE_PERIODS as i128
    }

    pub fn rent_has_expired(env: &Ledger, meta: &EscrowMeta) -> (r: bool)
        ensures
            r == env@.rent_expired(meta@),
    {
        let now: u64 = env.timestamp;
        if now <= meta.last_rent_collection_at {
            return false;
        }
        let elapsed: u64 = (now - meta.last_rent_collection_at) / RENT_PERIOD_SECONDS;
        if elapsed == 0 {
            return false;
        }
        let per: i128 = Self::rent_due_per_period(env, meta);
        if meta.rent_balance < 0 {
            proof {
                vstd::arithmetic::div_mod::lemma_fundamental_div_mod(
                    meta.rent_balance as int,
                    per as int,
                );
                let q = meta.rent_balance as int / per as int;
                assert(q < 0) by (nonlinear_arith)
                    requires
                        meta.rent_balance as int == per as int * q + (meta.rent_balance as int
                            % per as int),
                        0 <= meta.rent_balance as int % per as int,
                        meta.rent_balance < 0,
                        per >= 1,
                ;
            }
            return true;
        }
        let covered: i128 = meta.rent_balance / per;
        elapsed as i128 > covered
    }
}

} // verus!
