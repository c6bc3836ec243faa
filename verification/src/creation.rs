//! Creating escrows.
use vstd::prelude::*;

use crate::constants::{
    DEFAULT_HIGH_VALUE_THRESHOLD, MAX_BUYER_SIGNERS, MAX_ESCROW_AMOUNT,
    MAX_TIMELOCK_DURATION_SECONDS, MIN_ARBITER_REPUTATION_SCORE, MIN_ESCROW_AMOUNT,
};
use crate::contract::EscrowContract;
use crate::errors::EscrowError;
use crate::events::Event;
use crate::host::{Ids, Weights};
use crate::index::{append_id, listed};
use crate::ledger::{answers, attempts, ConfigView, Ledger, LedgerView, Outcome};
use crate::multisig::policy_check;
use crate::schedule::total_payments;
use crate::storage::{reserve, ContractStorage};
use crate::store::Record;
use crate::types::{
    Address, EscrowMeta, EscrowStatus, Hash32, MetaView, MultisigConfig, MultisigView,
    OptionalTimelock, RecurringInterval, RecurringPaymentConfig, Timelock,
};

verus! {

/// What somebody who creates an escrow asks for.
pub struct NewEscrow {
    pub client: Address,
    pub freelancer: Address,
    pub token: Address,
    pub total_amount: i128,
    pub brief_hash: Hash32,
    pub arbiter: Option<Address>,
    pub deadline: Option<u64>,
    pub lock_time: Option<u64>,
    pub dispute_timeout_ledger: Option<u32>,
    pub buyer_signers: Option<Seq<u64>>,
    pub multisig: Option<MultisigView>,
    pub timelock: Option<Timelock>,
    pub terms_hash: Option<Hash32>,
}

/// Who approves, with what weights, and from what weight on.
pub struct Policy {
    pub signers: Seq<u64>,
    pub weights: Seq<u32>,
    pub threshold: u32,
}

/// The signers of an escrow without a policy: those named, and the client.
pub open spec fn with_client(signers: Option<Seq<u64>>, client: Address) -> Seq<u64> {
    let named = match signers {
        Some(s) => s,
        None => Seq::empty(),
    };
    if named.contains(client.id) {
        named
    } else {
        named.push(client.id)
    }
}

impl LedgerView {
    /// The amount from which an escrow needs more than one approver.
    pub open spec fn high_value(self) -> i128 {
        match self.config.high_value_threshold {
            Some(t) => t,
            None => DEFAULT_HIGH_VALUE_THRESHOLD,
        }
    }

    /// The score that an arbiter with a record needs.
    pub open spec fn min_arbiter_score(self) -> u64 {
        match self.config.min_arbiter_reputation {
            Some(s) => s,
            None => MIN_ARBITER_REPUTATION_SCORE,
        }
    }

    /// Why an amount or a date is not accepted, if so.
    pub open spec fn inputs_check(
        self,
        total_amount: i128,
        deadline: Option<u64>,
        lock_time: Option<u64>,
    ) -> Result<(), EscrowError> {
        if total_amount < MIN_ESCROW_AMOUNT {
            Err(EscrowError::E84)
        } else if total_amount > MAX_ESCROW_AMOUNT {
            Err(EscrowError::E85)
        } else if deadline is Some && deadline->Some_0 <= self.timestamp {
            Err(EscrowError::E19)
        } else if lock_time is Some && lock_time->Some_0 <= self.timestamp {
            Err(EscrowError::E30)
        } else {
            Ok(())
        }
    }

    /// A known arbiter whose score is too low.
    pub open spec fn arbiter_unfit(self, arbiter: Address) -> bool {
        let r = self.reputation(arbiter);
        (r.completed_escrows > 0 || r.total_score > 0) && r.total_score < self.min_arbiter_score()
    }

    /// Why an escrow is not accepted, if so.
    pub open spec fn creation_check(self, a: NewEscrow) -> Result<(), EscrowError> {
        if self.config.admin is None {
            Err(EscrowError::E2)
        } else if self.config.paused {
            Err(EscrowError::E31)
        } else if a.client == a.freelancer {
            Err(EscrowError::E3)
        } else if a.arbiter == Some(a.client) || a.arbiter == Some(a.freelancer) {
            Err(EscrowError::E3)
        } else if a.total_amount < MIN_ESCROW_AMOUNT {
            Err(EscrowError::E19)
        } else if self.inputs_check(a.total_amount, a.deadline, a.lock_time) is Err {
            self.inputs_check(a.total_amount, a.deadline, a.lock_time)
        } else if a.brief_hash.zero() {
            Err(EscrowError::InvalidBriefHash)
        } else if a.terms_hash is Some && a.terms_hash->Some_0.zero() {
            Err(EscrowError::TermsHashEmpty)
        } else if a.timelock is Some && !(0 < a.timelock->Some_0.duration_ledger
            <= MAX_TIMELOCK_DURATION_SECONDS) {
            Err(EscrowError::E51)
        } else if self.barred.contains_key(a.token) {
            Err(self.barred[a.token])
        } else if self.config.token_whitelist_enabled && !self.config.approved_tokens.contains_key(
            a.token,
        ) {
            Err(EscrowError::E3)
        } else if a.arbiter is Some && self.arbiter_unfit(a.arbiter->Some_0) {
            Err(EscrowError::E3)
        } else if a.arbiter is Some && !self.is_allowed(a.arbiter->Some_0) {
            Err(EscrowError::E90)
        } else {
            Ok(())
        }
    }

    /// The approval policy of an escrow. A policy that was asked for stands as it
    /// is, and the client has no part in it unless it is named. Without one, each
    /// signer and the client approve alone, which is not enough for a high value.
    pub open spec fn policy(self, a: NewEscrow) -> Result<Policy, EscrowError> {
        let high = a.total_amount >= self.high_value();
        if a.multisig is Some && (a.multisig->Some_0.threshold > 0
            || a.multisig->Some_0.approvers.len() > 0) {
            let c = a.multisig->Some_0;
            match policy_check(c) {
                Err(e) => Err(e),
                Ok(several) => if high && !several {
                    Err(EscrowError::MultisigRequiredForHighValue)
                } else {
                    Ok(Policy { signers: c.approvers, weights: c.weights, threshold: c.threshold })
                },
            }
        } else if high {
            Err(EscrowError::MultisigRequiredForHighValue)
        } else {
            Ok(
                Policy {
                    signers: with_client(a.buyer_signers, a.client),
                    weights: Seq::empty(),
                    threshold: 0,
                },
            )
        }
    }

    /// A timelock runs from the creation of its escrow, whatever was asked for.
    pub open spec fn creation_timelock(self, timelock: Option<Timelock>) -> OptionalTimelock {
        match timelock {
            None => None,
            Some(t) => Some(
                Timelock { duration_ledger: t.duration_ledger, start_ledger: self.timestamp },
            ),
        }
    }

    /// The header of a new escrow.
    pub open spec fn new_meta(self, a: NewEscrow, p: Policy, rent: int) -> MetaView {
        MetaView {
            escrow_id: self.config.escrow_counter,
            client: a.client,
            freelancer: a.freelancer,
            token: a.token,
            total_amount: a.total_amount,
            allotted_amount: a.total_amount,
            allocated_amount: 0,
            remaining_balance: a.total_amount,
            status: EscrowStatus::Active,
            milestone_count: 0,
            approved_count: 0,
            released_count: 0,
            submitted_count: 0,
            arbiter: a.arbiter,
            buyer_signers: p.signers,
            created_at: self.timestamp,
            deadline: a.deadline,
            lock_time: a.lock_time,
            lock_time_extension: None,
            timelock: self.creation_timelock(a.timelock),
            dispute_timeout_ledger: a.dispute_timeout_ledger,
            dispute_started_ledger: None,
            brief_hash: a.brief_hash,
            rent_balance: rent as i128,
            last_rent_collection_at: self.timestamp,
            dispute_start_ledger: None,
            multisig_weights: p.weights,
            multisig_threshold: p.threshold,
            slippage_bps: 0,
            slippage_reference_price: 0,
            terms_hash: a.terms_hash,
            arbiter_fee_bps: 0,
        }
    }

    /// The state after the id of an escrow was handed out.
    pub open spec fn numbered(self) -> LedgerView {
        self.with_config(
            ConfigView {
                escrow_counter: (self.config.escrow_counter + 1) as u64,
                ..self.config
            },
        )
    }

    /// The state with a new escrow written and listed, and observers told.
    pub open spec fn opened(self, m: MetaView) -> LedgerView {
        self.saved_meta(m).joined(m.client, m.escrow_id).joined(m.freelancer, m.escrow_id).entered(
            EscrowStatus::Active,
            m.escrow_id,
        ).told(
            Event::EscrowCreated {
                escrow_id: m.escrow_id,
                client: m.client,
                freelancer: m.freelancer,
                amount: m.total_amount,
            },
        )
    }

    /// Creates an escrow, with the rent of one entry paid by the client in
    /// advance. The client also pays the total amount, unless the contract holds
    /// it already. The answer is the escrow's id.
    pub open spec fn created_from(self, a: NewEscrow, pays: bool) -> Outcome<u64> {
        match self.creation_check(a) {
            Err(e) => Err(e),
            Ok(()) => match self.policy(a) {
                Err(e) => Err(e),
                Ok(p) => {
                    let funded = if pays {
                        self.numbered().charged(a.token, a.client, a.total_amount)
                    } else {
                        self.numbered()
                    };
                    Ok(
                        (
                            funded.charged(a.token, a.client, reserve(1) as i128).opened(
                                self.new_meta(a, p, reserve(1)),
                            ),
                            self.config.escrow_counter,
                        ),
                    )
                },
            },
        }
    }

    /// Creates an escrow that its client pays for.
    pub open spec fn created(self, a: NewEscrow) -> Outcome<u64> {
        self.created_from(a, true)
    }

    /// Creates an escrow for a caller who holds an item of a collection.
    pub open spec fn nft_gated(
        self,
        nft_contract: Address,
        token_id: u64,
        nft_balance: i128,
        a: NewEscrow,
    ) -> Outcome<u64> {
        if nft_balance == 0 {
            Err(EscrowError::E3)
        } else {
            match self.authed(a.client).created(a) {
                Err(e) => Err(e),
                Ok((post, id)) => Ok(
                    (
                        post.told(
                            Event::NftGatedEscrowCreated { escrow_id: id, nft_contract, token_id },
                        ),
                        id,
                    ),
                ),
            }
        }
    }

    /// Creates an escrow on request.
    pub open spec fn create_plain(
        self,
        client: Address,
        freelancer: Address,
        token: Address,
        total_amount: i128,
        brief_hash: Hash32,
        arbiter: Option<Address>,
        deadline: Option<u64>,
        lock_time: Option<u64>,
        timelock: Option<Timelock>,
        multisig: MultisigView,
        terms_hash: Option<Hash32>,
    ) -> Outcome<u64> {
        self.authed(client).created(
            NewEscrow {
                client,
                freelancer,
                token,
                total_amount,
                brief_hash,
                arbiter,
                deadline,
                lock_time,
                dispute_timeout_ledger: None,
                buyer_signers: None,
                multisig: Some(multisig),
                timelock,
                terms_hash,
            },
        )
    }

    /// Creates an escrow whose disputes can be claimed after a number of ledgers.
    pub open spec fn create_timed(
        self,
        client: Address,
        freelancer: Address,
        token: Address,
        total_amount: i128,
        brief_hash: Hash32,
        arbiter: Option<Address>,
        deadline: Option<u64>,
        lock_time: Option<u64>,
        ledgers: u32,
    ) -> Outcome<u64> {
        self.authed(client).created(
            NewEscrow {
                client,
                freelancer,
                token,
                total_amount,
                brief_hash,
                arbiter,
                deadline,
                lock_time,
                dispute_timeout_ledger: Some(ledgers),
                buyer_signers: None,
                multisig: None,
                timelock: None,
                terms_hash: None,
            },
        )
    }

    /// Creates an escrow that any of several signers approves: at most ten.
    pub open spec fn create_signed(
        self,
        client: Address,
        freelancer: Address,
        token: Address,
        total_amount: i128,
        brief_hash: Hash32,
        arbiter: Option<Address>,
        deadline: Option<u64>,
        lock_time: Option<u64>,
        signers: Seq<u64>,
    ) -> Outcome<u64> {
        if signers.len() > MAX_BUYER_SIGNERS {
            Err(EscrowError::MultisigTooManySigners)
        } else {
            self.authed(client).created(
                NewEscrow {
                    client,
                    freelancer,
                    token,
                    total_amount,
                    brief_hash,
                    arbiter,
                    deadline,
                    lock_time,
                    dispute_timeout_ledger: None,
                    buyer_signers: Some(signers),
                    multisig: None,
                    timelock: None,
                    terms_hash: None,
                },
            )
        }
    }

    /// Creates an escrow for somebody who holds an item of a collection.
    pub open spec fn create_gated(
        self,
        caller: Address,
        nft_contract: Address,
        token_id: u64,
        nft_balance: i128,
        freelancer: Address,
        token: Address,
        total_amount: i128,
        brief_hash: Hash32,
        arbiter: Option<Address>,
        deadline: Option<u64>,
        lock_time: Option<u64>,
    ) -> Outcome<u64> {
        self.nft_gated(
            nft_contract,
            token_id,
            nft_balance,
            NewEscrow {
                client: caller,
                freelancer,
                token,
                total_amount,
                brief_hash,
                arbiter,
                deadline,
                lock_time,
                dispute_timeout_ledger: None,
                buyer_signers: None,
                multisig: None,
                timelock: None,
                terms_hash: None,
            },
        )
    }

    /// Creates an escrow that pays on a schedule. The client pays the sum of all
    /// payments and the rent of two entries in advance.
    pub open spec fn recurring_created(
        self,
        client: Address,
        freelancer: Address,
        token: Address,
        payment_amount: i128,
        interval: RecurringInterval,
        start_time: u64,
        end_date: Option<u64>,
        number_of_payments: Option<u32>,
        brief_hash: Hash32,
    ) -> Outcome<u64> {
        let total = total_payments(start_time, interval, end_date, number_of_payments);
        if self.config.admin is None {
            Err(EscrowError::E2)
        } else if self.config.paused {
            Err(EscrowError::E31)
        } else if client == freelancer {
            Err(EscrowError::E3)
        } else if payment_amount < MIN_ESCROW_AMOUNT {
            Err(EscrowError::E19)
        } else if brief_hash.zero() {
            Err(EscrowError::InvalidBriefHash)
        } else if start_time <= self.timestamp {
            Err(EscrowError::E44)
        } else if total is Err {
            Err(total->Err_0)
        } else if payment_amount * total->Ok_0 > i128::MAX {
            Err(EscrowError::E20)
        } else if payment_amount * total->Ok_0 > MAX_ESCROW_AMOUNT {
            Err(EscrowError::E85)
        } else {
            let n = total->Ok_0;
            let id = self.config.escrow_counter;
            let a = NewEscrow {
                client,
                freelancer,
                token,
                total_amount: (payment_amount * n) as i128,
                brief_hash,
                arbiter: None,
                deadline: None,
                lock_time: None,
                dispute_timeout_ledger: None,
                buyer_signers: None,
                multisig: None,
                timelock: None,
                terms_hash: None,
            };
            let p = Policy { signers: seq![client.id], weights: Seq::empty(), threshold: 0 };
            let c = RecurringPaymentConfig {
                interval,
                payment_amount,
                start_time,
                next_payment_at: start_time,
                end_date,
                total_payments: n,
                payments_remaining: n,
                processed_payments: 0,
                final_payment_amount: None,
                paused: false,
                cancelled: false,
                paused_at: None,
                last_payment_at: None,
            };
            Ok(
                (
                    self.numbered().charged(token, client, a.total_amount).charged(
                        token,
                        client,
                        reserve(1) as i128,
                    ).charged(token, client, reserve(1) as i128).opened(
                        self.new_meta(a, p, reserve(1) + reserve(1)),
                    ).saved_recurring(id, c).told(
                        Event::RecurringScheduleCreated {
                            escrow_id: id,
                            amount: payment_amount,
                            payments: n,
                            start: start_time,
                        },
                    ),
                    id,
                ),
            )
        }
    }
}

impl EscrowContract {
    /// Checks the amount and the dates of a new escrow.
    pub fn validate_escrow_inputs(
        env: &Ledger,
        total_amount: i128,
        deadline: Option<u64>,
        lock_time: Option<u64>,
    ) -> (r: Result<(), EscrowError>)
        ensures
            r == env@.inputs_check(total_amount, deadline, lock_time),
    {
        if total_amount < MIN_ESCROW_AMOUNT {
            return Err(EscrowError::E84);
        }
        if total_amount > MAX_ESCROW_AMOUNT {
            return Err(EscrowError::E85);
        }
        if let Some(dl) = deadline {
            if dl <= env.timestamp {
                return Err(EscrowError::E19);
            }
        }
        if let Some(lt) = lock_time {
            if lt <= env.timestamp {
                return Err(EscrowError::E30);
            }
        }
        Ok(())
    }

    /// The amount from which an escrow needs more than one approver.
    pub fn get_high_value_threshold(env: &Ledger) -> (r: i128)
        ensures
            r == env@.high_value(),
    {
        match env.config.high_value_threshold {
            Some(t) => t,
            None => DEFAULT_HIGH_VALUE_THRESHOLD,
        }
    }

    /// The score that an arbiter with a record needs.
    pub fn get_min_arbiter_reputation(env: &Ledger) -> (r: u64)
        ensures
            r == env@.min_arbiter_score(),
    {
        match env.config.min_arbiter_reputation {
            Some(s) => s,
            None => MIN_ARBITER_REPUTATION_SCORE,
        }
    }

    /// A timelock for an escrow that is created now.
    pub fn normalize_creation_timelock(
        env: &Ledger,
        timelock: Option<Timelock>,
    ) -> (r: Result<OptionalTimelock, EscrowError>)
        ensures
            r == (if timelock is Some && !(0 < timelock->Some_0.duration_ledger
                <= MAX_TIMELOCK_DURATION_SECONDS) {
                Err(EscrowError::E51)
            } else {
                Ok::<OptionalTimelock, EscrowError>(env@.creation_timelock(timelock))
            }),
    {
        match timelock {
            None => Ok(None),
            Some(t) => {
                if t.duration_ledger == 0 || t.duration_ledger > MAX_TIMELOCK_DURATION_SECONDS {
                    return Err(EscrowError::E51);
                }
                Ok(
                    Some(
                        Timelock {
                            duration_ledger: t.duration_ledger,
                            start_ledger: env.timestamp,
                        },
                    ),
                )
            },
        }
    }

    /// Lists a new escrow under its parties and as active.
    fn open_escrow(env: &mut Ledger, meta: &EscrowMeta)
        requires
            old(env)@.room(1),
            meta.client != meta.freelancer,
        ensures
            final(env)@ == old(env)@.opened(meta@),
    {
        ContractStorage::save_escrow_meta(env, meta);
        let ghost book = env@.book;
        append_id(&mut env.book.by_participant, &env.host, meta.client, meta.escrow_id);
        proof {
            assert(listed(env@.book.by_participant, meta.freelancer) == listed(
                book.by_participant,
                meta.freelancer,
            ));
            assert(listed(old(env)@.book.by_participant, meta.freelancer).len() + 1 <= u32::MAX);
        }
        append_id(&mut env.book.by_participant, &env.host, meta.freelancer, meta.escrow_id);
        assert(listed(old(env)@.book.by_status, EscrowStatus::Active).len() + 1 <= u32::MAX);
        append_id(&mut env.book.by_status, &env.host, EscrowStatus::Active, meta.escrow_id);
        env.publish(
            Event::EscrowCreated {
                escrow_id: meta.escrow_id,
                client: meta.client,
                freelancer: meta.freelancer,
                amount: meta.total_amount,
            },
        );
    }

    /// Creates an escrow, and charges the client for its amount if it `pays`.
    #[verifier::rlimit(40)]
    pub(crate) fn create_escrow_from(
        env: &mut Ledger,
        client: Address,
        freelancer: Address,
        token: Address,
        total_amount: i128,
        brief_hash: Hash32,
        arbiter: Option<Address>,
        deadline: Option<u64>,
        lock_time: Option<u64>,
        dispute_timeout_ledger: Option<u32>,
        buyer_signers: Option<Ids>,
        multisig_config: Option<MultisigConfig>,
        timelock: Option<Timelock>,
        terms_hash: Option<Hash32>,
        require_client_auth: bool,
        pays: bool,
    ) -> (r: Result<u64, EscrowError>)
        requires
            old(env)@.config.escrow_counter < u64::MAX,
            old(env)@.room(1),
            buyer_signers matches Some(s) ==> s@.len() < u32::MAX,
        ensures
            attempts(
                r,
                final(env)@,
                (if require_client_auth {
                    old(env)@.authed(client)
                } else {
                    old(env)@
                }).created_from(
                    (NewEscrow {
                        client,
                        freelancer,
                        token,
                        total_amount,
                        brief_hash,
                        arbiter,
                        deadline,
                        lock_time,
                        dispute_timeout_ledger,
                        buyer_signers: crate::ledger::opt_view(buyer_signers),
                        multisig: crate::ledger::opt_view(multisig_config),
                        timelock,
                        terms_hash,
                    }),
                    pays,
                ),
            ),
    {
        let ghost a = NewEscrow {
            client,
            freelancer,
            token,
            total_amount,
            brief_hash,
            arbiter,
            deadline,
            lock_time,
            dispute_timeout_ledger,
            buyer_signers: crate::ledger::opt_view(buyer_signers),
            multisig: crate::ledger::opt_view(multisig_config),
            timelock,
            terms_hash,
        };
        if require_client_auth {
            env.require_auth(client);
        }
        let ghost base = env@;
        ContractStorage::require_initialized(env)?;
        ContractStorage::require_not_paused(env)?;
        if client == freelancer {
            return Err(EscrowError::E3);
        }
        if let Some(a) = arbiter {
            if a == client || a == freelancer {
                return Err(EscrowError::E3);
            }
        }
        if total_amount < MIN_ESCROW_AMOUNT {
            return Err(EscrowError::E19);
        }
        Self::validate_escrow_inputs(env, total_amount, deadline, lock_time)?;
        if brief_hash.is_zero() {
            return Err(EscrowError::InvalidBriefHash);
        }
        if let Some(th) = terms_hash {
            if th.is_zero() {
                return Err(EscrowError::TermsHashEmpty);
            }
        }
        let creation_timelock = Self::normalize_creation_timelock(env, timelock)?;
        if let Some(e) = env.barred.get(token) {
            return Err(e);
        }
        if env.config.token_whitelist_enabled && !env.config.approved_tokens.has(token) {
            return Err(EscrowError::E3);
        }
        if let Some(a) = arbiter {
            let min_reputation: u64 = Self::get_min_arbiter_reputation(env);
            let rep = ContractStorage::load_reputation(env, a);
            if (rep.completed_escrows > 0 || rep.total_score > 0) && rep.total_score
                < min_reputation {
                return Err(EscrowError::E3);
            }
            if !env.book.allowlist.has(a) {
                return Err(EscrowError::E90);
            }
        }
        assert(base.creation_check(a) is Ok);
        let high_value = total_amount >= Self::get_high_value_threshold(env);
        let mut asked: Option<MultisigConfig> = None;
        if let Some(c) = multisig_config {
            if c.threshold > 0 || c.approvers.len() > 0 {
                asked = Some(c);
            }
        }
        let (signers, weights, threshold) = match asked {
            Some(c) => {
                let several = Self::validate_multisig_config(&c)?;
                if high_value && !several {
                    return Err(EscrowError::MultisigRequiredForHighValue);
                }
                (c.approvers, c.weights, c.threshold)
            },
            None => {
                if high_value {
                    return Err(EscrowError::MultisigRequiredForHighValue);
                }
                let mut signers = match buyer_signers {
                    Some(s) => s,
                    None => Ids::new(&env.host),
                };
                if !signers.contains(client.id) {
                    signers.push_back(client.id);
                }
                (signers, Weights::new(&env.host), 0u32)
            },
        };
        let ghost p = Policy { signers: signers@, weights: weights@, threshold };
        assert(base.policy(a) == Ok::<Policy, EscrowError>(p));
        let now: u64 = env.timestamp;
        let escrow_id: u64 = ContractStorage::next_escrow_id(env);
        let rent_reserve: i128 = ContractStorage::reserve_for_entries(1);
        if pays {
            env.charge(token, client, total_amount);
        }
        ContractStorage::charge_rent_reserve(env, token, client, rent_reserve);
        let meta = EscrowMeta {
            escrow_id,
            client,
            freelancer,
            token,
            total_amount,
            allotted_amount: total_amount,
            allocated_amount: 0,
            remaining_balance: total_amount,
            status: EscrowStatus::Active,
            milestone_count: 0,
            approved_count: 0,
            released_count: 0,
            submitted_count: 0,
            arbiter,
            buyer_signers: signers,
            created_at: now,
            deadline,
            lock_time,
            lock_time_extension: None,
            timelock: creation_timelock,
            dispute_timeout_ledger,
            dispute_started_ledger: None,
            brief_hash,
            rent_balance: rent_reserve,
            last_rent_collection_at: now,
            dispute_start_ledger: None,
            multisig_weights: weights,
            multisig_threshold: threshold,
            slippage_bps: 0,
            slippage_reference_price: 0,
            terms_hash,
            arbiter_fee_bps: 0,
        };
        assert(meta@ == base.new_meta(a, p, reserve(1)));
        Self::open_escrow(env, &meta);
        Ok(escrow_id)
    }

    /// Creates an escrow for a client who has been asked to sign, where
    /// `require_client_auth` does not ask for it here.
    #[verifier::rlimit(40)]
    pub fn create_escrow_internal(
        env: &mut Ledger,
        client: Address,
        freelancer: Address,
        token: Address,
        total_amount: i128,
        brief_hash: Hash32,
        arbiter: Option<Address>,
        deadline: Option<u64>,
        lock_time: Option<u64>,
        dispute_timeout_ledger: Option<u32>,
        buyer_signers: Option<Ids>,
        multisig_config: Option<MultisigConfig>,
        timelock: Option<Timelock>,
        terms_hash: Option<Hash32>,
        require_client_auth: bool,
    ) -> (r: Result<u64, EscrowError>)
        requires
            old(env)@.config.escrow_counter < u64::MAX,
            old(env)@.room(1),
            buyer_signers matches Some(s) ==> s@.len() < u32::MAX,
        ensures
            answers(
                r,
                old(env)@,
                final(env)@,
                (if require_client_auth {
                    old(env)@.authed(client)
                } else {
                    old(env)@
                }).created(
                    (NewEscrow {
                        client,
                        freelancer,
                        token,
                        total_amount,
                        brief_hash,
                        arbiter,
                        deadline,
                        lock_time,
                        dispute_timeout_ledger,
                        buyer_signers: crate::ledger::opt_view(buyer_signers),
                        multisig: crate::ledger::opt_view(multisig_config),
                        timelock,
                        terms_hash,
                    }),
                ),
            ),
    {
        let mut tx = env.dup();
        let id: u64 = Self::create_escrow_from(
            &mut tx,
            client,
            freelancer,
            token,
            total_amount,
            brief_hash,
            arbiter,
            deadline,
            lock_time,
            dispute_timeout_ledger,
            buyer_signers,
            multisig_config,
            timelock,
            terms_hash,
            require_client_auth,
            true,
        )?;
        *env = tx;
        Ok(id)
    }

    /// Creates an escrow.
    pub fn create_escrow(
        env: &mut Ledger,
        client: Address,
        freelancer: Address,
        token: Address,
        total_amount: i128,
        brief_hash: Hash32,
        arbiter: Option<Address>,
        deadline: Option<u64>,
        lock_time: Option<u64>,
        timelock: Option<Timelock>,
        multisig_config: MultisigConfig,
        terms_hash: Option<Hash32>,
    ) -> (r: Result<u64, EscrowError>)
        requires
            old(env)@.config.escrow_counter < u64::MAX,
            old(env)@.room(1),
        ensures
            answers(
                r,
                old(env)@,
                final(env)@,
                old(env)@.create_plain(
                    client,
                    freelancer,
                    token,
                    total_amount,
                    brief_hash,
                    arbiter,
                    deadline,
                    lock_time,
                    timelock,
                    multisig_config@,
                    terms_hash,
                ),
            ),
    {
        let mut tx = env.dup();
        let id: u64 = Self::create_escrow_internal(
            &mut tx,
            client,
            freelancer,
            token,
            total_amount,
            brief_hash,
            arbiter,
            deadline,
            lock_time,
            None,
            None,
            Some(multisig_config),
            timelock,
            terms_hash,
            true,
        )?;
        *env = tx;
        Ok(id)
    }

    /// Creates an escrow whose disputes can be claimed after a number of
    /// ledgers.
    pub fn create_escrow_dispute_timeout(
        env: &mut Ledger,
        client: Address,
        freelancer: Address,
        token: Address,
        total_amount: i128,
        brief_hash: Hash32,
        arbiter: Option<Address>,
        deadline: Option<u64>,
        lock_time: Option<u64>,
        dispute_timeout_ledger: u32,
    ) -> (r: Result<u64, EscrowError>)
        requires
            old(env)@.config.escrow_counter < u64::MAX,
            old(env)@.room(1),
        ensures
            answers(
                r,
                old(env)@,
                final(env)@,
                old(env)@.create_timed(
                    client,
                    freelancer,
                    token,
                    total_amount,
                    brief_hash,
                    arbiter,
                    deadline,
                    lock_time,
                    dispute_timeout_ledger,
                ),
            ),
    {
        let mut tx = env.dup();
        let id: u64 = Self::create_escrow_internal(
            &mut tx,
            client,
            freelancer,
            token,
            total_amount,
            brief_hash,
            arbiter,
            deadline,
            lock_time,
            Some(dispute_timeout_ledger),
            None,
            None,
            None,
            None,
            true,
        )?;
        *env = tx;
        Ok(id)
    }

    /// Creates an escrow for a caller who holds an item of a collection;
    /// `nft_balance` is what the collection answers.
    pub fn create_escrow_with_nft_gate(
        env: &mut Ledger,
        caller: Address,
        nft_contract: Address,
        token_id: u64,
        nft_balance: i128,
        freelancer: Address,
        token: Address,
        total_amount: i128,
        brief_hash: Hash32,
        arbiter: Option<Address>,
        deadline: Option<u64>,
        lock_time: Option<u64>,
    ) -> (r: Result<u64, EscrowError>)
        requires
            old(env)@.config.escrow_counter < u64::MAX,
            old(env)@.room(1),
        ensures
            answers(
                r,
                old(env)@,
                final(env)@,
                old(env)@.create_gated(
                    caller,
                    nft_contract,
                    token_id,
                    nft_balance,
                    freelancer,
                    token,
                    total_amount,
                    brief_hash,
                    arbiter,
                    deadline,
                    lock_time,
                ),
            ),
    {
        if nft_balance == 0 {
            return Err(EscrowError::E3);
        }
        let mut tx = env.dup();
        let id: u64 = Self::create_escrow_internal(
            &mut tx,
            caller,
            freelancer,
            token,
            total_amount,
            brief_hash,
            arbiter,
            deadline,
            lock_time,
            None,
            None,
            None,
            None,
            None,
            true,
        )?;
        tx.publish(Event::NftGatedEscrowCreated { escrow_id: id, nft_contract, token_id });
        *env = tx;
        Ok(id)
    }

    /// Creates an escrow that any of several signers approves.
    pub fn create_escrow_with_buyer_signers(
        env: &mut Ledger,
        client: Address,
        freelancer: Address,
        token: Address,
        total_amount: i128,
        brief_hash: Hash32,
        arbiter: Option<Address>,
        deadline: Option<u64>,
        lock_time: Option<u64>,
        buyer_signers: Ids,
    ) -> (r: Result<u64, EscrowError>)
        requires
            old(env)@.config.escrow_counter < u64::MAX,
            old(env)@.room(1),
        ensures
            answers(
                r,
                old(env)@,
                final(env)@,
                old(env)@.create_signed(
                    client,
                    freelancer,
                    token,
                    total_amount,
                    brief_hash,
                    arbiter,
                    deadline,
                    lock_time,
                    buyer_signers@,
                ),
            ),
    {
        if buyer_signers.len() > MAX_BUYER_SIGNERS {
            return Err(EscrowError::MultisigTooManySigners);
        }
        let mut tx = env.dup();
        let id: u64 = Self::create_escrow_internal(
            &mut tx,
            client,
            freelancer,
            token,
            total_amount,
            brief_hash,
            arbiter,
            deadline,
            lock_time,
            None,
            Some(buyer_signers),
            None,
            None,
            None,
            true,
        )?;
        *env = tx;
        Ok(id)
    }

    /// Creates an escrow that pays on a schedule.
    #[verifier::rlimit(40)]
    pub fn create_recurring_escrow(
        env: &mut Ledger,
        client: Address,
        freelancer: Address,
        token: Address,
        payment_amount: i128,
        interval: RecurringInterval,
        start_time: u64,
        end_date: Option<u64>,
        number_of_payments: Option<u32>,
        brief_hash: Hash32,
    ) -> (r: Result<u64, EscrowError>)
        requires
            old(env)@.config.escrow_counter < u64::MAX,
            old(env)@.room(1),
        ensures
            answers(
                r,
                old(env)@,
                final(env)@,
                old(env)@.authed(client).recurring_created(
                    client,
                    freelancer,
                    token,
                    payment_amount,
                    interval,
                    start_time,
                    end_date,
                    number_of_payments,
                    brief_hash,
                ),
            ),
    {
        let mut tx = env.dup();
        tx.require_auth(client);
        let ghost base = tx@;
        ContractStorage::require_initialized(&tx)?;
        ContractStorage::require_not_paused(&tx)?;
        if client == freelancer {
            return Err(EscrowError::E3);
        }
        if payment_amount < MIN_ESCROW_AMOUNT {
            return Err(EscrowError::E19);
        }
        if brief_hash.is_zero() {
            return Err(EscrowError::InvalidBriefHash);
        }
        let now: u64 = tx.timestamp;
        if start_time <= now {
            return Err(EscrowError::E44);
        }
        let payments: u32 = Self::resolve_total_payments(
            start_time,
            interval,
            end_date,
            number_of_payments,
        )?;
        proof {
            assert(payment_amount * payments >= 0) by (nonlinear_arith)
                requires
                    payment_amount >= 1,
                    payments >= 0,
            ;
        }
        let total_amount: i128 = match payment_amount.checked_mul(payments as i128) {
            None => {
                return Err(EscrowError::E20);
            },
            Some(t) => t,
        };
        if total_amount > MAX_ESCROW_AMOUNT {
            return Err(EscrowError::E85);
        }
        let escrow_id: u64 = ContractStorage::next_escrow_id(&mut tx);
        let base_rent_reserve: i128 = ContractStorage::reserve_for_entries(1);
        tx.charge(token, client, total_amount);
        ContractStorage::charge_rent_reserve(&mut tx, token, client, base_rent_reserve);
        let mut buyer_signers = Ids::new(&tx.host);
        buyer_signers.push_back(client.id);
        let mut meta = EscrowMeta {
            escrow_id,
            client,
            freelancer,
            token,
            total_amount,
            allotted_amount: total_amount,
            allocated_amount: 0,
            remaining_balance: total_amount,
            status: EscrowStatus::Active,
            milestone_count: 0,
            approved_count: 0,
            released_count: 0,
            submitted_count: 0,
            arbiter: None,
            buyer_signers,
            created_at: now,
            deadline: None,
            lock_time: None,
            lock_time_extension: None,
            timelock: None,
            dispute_timeout_ledger: None,
            dispute_started_ledger: None,
            brief_hash,
            rent_balance: base_rent_reserve,
            last_rent_collection_at: now,
            dispute_start_ledger: None,
            multisig_weights: Weights::new(&tx.host),
            multisig_threshold: 0,
            slippage_bps: 0,
            slippage_reference_price: 0,
            terms_hash: None,
            arbiter_fee_bps: 0,
        };
        assert(meta@.buyer_signers =~= seq![client.id]);
        ContractStorage::charge_entry_rent(&mut tx, &mut meta, client, 1)?;
        Self::open_escrow(&mut tx, &meta);
        let recurring = RecurringPaymentConfig {
            interval,
            payment_amount,
            start_time,
            next_payment_at: start_time,
            end_date,
            total_payments: payments,
            payments_remaining: payments,
            processed_payments: 0,
            final_payment_amount: None,
            paused: false,
            cancelled: false,
            paused_at: None,
            last_payment_at: None,
        };
        ContractStorage::save_recurring_config(&mut tx, escrow_id, &recurring);
        tx.publish(
            Event::RecurringScheduleCreated {
                escrow_id,
                amount: payment_amount,
                payments,
                start: start_time,
            },
        );
        *env = tx;
        Ok(escrow_id)
    }
}

} // verus!
