//! The contract's state and what a request does to it, step by step.
use vstd::prelude::*;

use crate::errors::EscrowError;
use crate::events::{effects, Effect, EffectView, Event};
use crate::host::{host_clone, Ids};
use crate::store::{Record, Store};
use crate::types::{
    Address, BridgeConfirmation, CancellationRequest, CancellationView, ContractVersionInfo,
    DexConfig, DexSwapRecord, DisputeEvidences, EscrowFeeSnapshot, EscrowMeta, EscrowStatus,
    EscrowTemplate, EvidenceView, FeeTier, FeeTiers, Hash32, MetaView, Milestone, MilestoneView,
    PackedDataKey, RecurringPaymentConfig, ReputationRecord, SlashRecord, SlashView, StateHistory,
    StateHistoryEntry, TemplateView, TermsAcceptance, Text, TokenPair, WrappedTokenInfo,
    WrappedTokenView,
};

verus! {

/// What an optional entry stands for.
pub open spec fn opt_view<T: View>(o: Option<T>) -> Option<T::V> {
    match o {
        Some(x) => Some(x@),
        None => None,
    }
}

/// A second optional entry with the same contents.
pub fn opt_dup<T: Record>(o: &Option<T>) -> (r: Option<T>)
    ensures
        opt_view(r) == opt_view(*o),
{
    match o {
        Some(x) => Some(x.dup()),
        None => None,
    }
}

/// What holds for the whole contract.
pub struct Config {
    /// Who runs the contract, once it is initialized.
    pub admin: Option<Address>,
    /// Who was proposed as the next admin.
    pub pending_admin: Option<Address>,
    /// Who may sign for the admins, by address id.
    pub admin_signers: Option<Ids>,
    pub admin_threshold: Option<u32>,
    /// The id of the next escrow.
    pub escrow_counter: u64,
    /// The id of the next template.
    pub template_counter: u64,
    pub migration_cursor: u64,
    pub platform_treasury: Option<Address>,
    pub platform_fee_tiers: Option<FeeTiers>,
    pub contract_version: Option<ContractVersionInfo>,
    /// Held while the host pays out for a guarded request.
    pub reentrancy_lock: bool,
    pub paused: bool,
    pub token_whitelist_enabled: bool,
    /// The tokens on the whitelist.
    pub approved_tokens: Store<Address, bool>,
    pub high_value_threshold: Option<i128>,
    pub min_arbiter_reputation: Option<u64>,
    pub governance_contract: Option<Address>,
    pub max_milestones: Option<u32>,
    pub dex_config: Option<DexConfig>,
    pub trusted_oracle_key: Option<Hash32>,
    pub oracle: Option<Address>,
    pub fallback_oracle: Option<Address>,
    pub oracle_stale_threshold: Option<u64>,
    pub wormhole_bridge: Option<Address>,
    pub wrapped_tokens: Store<Address, WrappedTokenInfo>,
    pub bridge_confirmations: Store<Address, BridgeConfirmation>,
}

/// What `Config` stands for.
pub struct ConfigView {
    pub admin: Option<Address>,
    pub pending_admin: Option<Address>,
    pub admin_signers: Option<Seq<u64>>,
    pub admin_threshold: Option<u32>,
    pub escrow_counter: u64,
    pub template_counter: u64,
    pub migration_cursor: u64,
    pub platform_treasury: Option<Address>,
    pub platform_fee_tiers: Option<Seq<FeeTier>>,
    pub contract_version: Option<ContractVersionInfo>,
    pub reentrancy_lock: bool,
    pub paused: bool,
    pub token_whitelist_enabled: bool,
    pub approved_tokens: Map<Address, bool>,
    pub high_value_threshold: Option<i128>,
    pub min_arbiter_reputation: Option<u64>,
    pub governance_contract: Option<Address>,
    pub max_milestones: Option<u32>,
    pub dex_config: Option<Seq<TokenPair>>,
    pub trusted_oracle_key: Option<Hash32>,
    pub oracle: Option<Address>,
    pub fallback_oracle: Option<Address>,
    pub oracle_stale_threshold: Option<u64>,
    pub wormhole_bridge: Option<Address>,
    pub wrapped_tokens: Map<Address, WrappedTokenView>,
    pub bridge_confirmations: Map<Address, BridgeConfirmation>,
}

impl View for Config {
    type V = ConfigView;

    open spec fn view(&self) -> ConfigView {
        ConfigView {
            admin: self.admin,
            pending_admin: self.pending_admin,
            admin_signers: opt_view(self.admin_signers),
            admin_threshold: self.admin_threshold,
            escrow_counter: self.escrow_counter,
            template_counter: self.template_counter,
            migration_cursor: self.migration_cursor,
            platform_treasury: self.platform_treasury,
            platform_fee_tiers: opt_view(self.platform_fee_tiers),
            contract_version: self.contract_version,
            reentrancy_lock: self.reentrancy_lock,
            paused: self.paused,
            token_whitelist_enabled: self.token_whitelist_enabled,
            approved_tokens: self.approved_tokens@,
            high_value_threshold: self.high_value_threshold,
            min_arbiter_reputation: self.min_arbiter_reputation,
            governance_contract: self.governance_contract,
            max_milestones: self.max_milestones,
            dex_config: opt_view(self.dex_config),
            trusted_oracle_key: self.trusted_oracle_key,
            oracle: self.oracle,
            fallback_oracle: self.fallback_oracle,
            oracle_stale_threshold: self.oracle_stale_threshold,
            wormhole_bridge: self.wormhole_bridge,
            wrapped_tokens: self.wrapped_tokens@,
            bridge_confirmations: self.bridge_confirmations@,
        }
    }
}

impl Config {
    /// The configuration of a contract that nobody has touched.
    pub open spec fn blank() -> ConfigView {
        ConfigView {
            admin: None,
            pending_admin: None,
            admin_signers: None,
            admin_threshold: None,
            escrow_counter: 0,
            template_counter: 0,
            migration_cursor: 0,
            platform_treasury: None,
            platform_fee_tiers: None,
            contract_version: None,
            reentrancy_lock: false,
            paused: false,
            token_whitelist_enabled: false,
            approved_tokens: Map::empty(),
            high_value_threshold: None,
            min_arbiter_reputation: None,
            governance_contract: None,
            max_milestones: None,
            dex_config: None,
            trusted_oracle_key: None,
            oracle: None,
            fallback_oracle: None,
            oracle_stale_threshold: None,
            wormhole_bridge: None,
            wrapped_tokens: Map::empty(),
            bridge_confirmations: Map::empty(),
        }
    }

    /// The configuration of a contract that nobody has touched.
    pub fn new() -> (r: Config)
        ensures
            r@ == Config::blank(),
    {
        Config {
            admin: None,
            pending_admin: None,
            admin_signers: None,
            admin_threshold: None,
            escrow_counter: 0,
            template_counter: 0,
            migration_cursor: 0,
            platform_treasury: None,
            platform_fee_tiers: None,
            contract_version: None,
            reentrancy_lock: false,
            paused: false,
            token_whitelist_enabled: false,
            approved_tokens: Store::new(),
            high_value_threshold: None,
            min_arbiter_reputation: None,
            governance_contract: None,
            max_milestones: None,
            dex_config: None,
            trusted_oracle_key: None,
            oracle: None,
            fallback_oracle: None,
            oracle_stale_threshold: None,
            wormhole_bridge: None,
            wrapped_tokens: Store::new(),
            bridge_confirmations: Store::new(),
        }
    }
}

impl Record for Config {
    fn dup(&self) -> (r: Self) {
        Config {
            admin: self.admin,
            pending_admin: self.pending_admin,
            admin_signers: opt_dup(&self.admin_signers),
            admin_threshold: self.admin_threshold,
            escrow_counter: self.escrow_counter,
            template_counter: self.template_counter,
            migration_cursor: self.migration_cursor,
            platform_treasury: self.platform_treasury,
            platform_fee_tiers: opt_dup(&self.platform_fee_tiers),
            contract_version: self.contract_version,
            reentrancy_lock: self.reentrancy_lock,
            paused: self.paused,
            token_whitelist_enabled: self.token_whitelist_enabled,
            approved_tokens: self.approved_tokens.dup(),
            high_value_threshold: self.high_value_threshold,
            min_arbiter_reputation: self.min_arbiter_reputation,
            governance_contract: self.governance_contract,
            max_milestones: self.max_milestones,
            dex_config: opt_dup(&self.dex_config),
            trusted_oracle_key: self.trusted_oracle_key,
            oracle: self.oracle,
            fallback_oracle: self.fallback_oracle,
            oracle_stale_threshold: self.oracle_stale_threshold,
            wormhole_bridge: self.wormhole_bridge,
            wrapped_tokens: self.wrapped_tokens.dup(),
            bridge_confirmations: self.bridge_confirmations.dup(),
        }
    }
}

/// The entries of the contract.
pub struct Book {
    /// The headers of the escrows.
    pub metas: Store<PackedDataKey, EscrowMeta>,
    /// The milestones of the escrows.
    pub milestones: Store<PackedDataKey, Milestone>,
    /// The payment schedules.
    pub recurring: Store<PackedDataKey, RecurringPaymentConfig>,
    pub fee_snapshots: Store<u64, EscrowFeeSnapshot>,
    pub reputations: Store<Address, ReputationRecord>,
    pub cancellations: Store<u64, CancellationRequest>,
    pub slashes: Store<u64, SlashRecord>,
    pub frozen: Store<u64, bool>,
    pub templates: Store<u64, EscrowTemplate>,
    pub terms: Store<u64, TermsAcceptance>,
    /// The times from which timelocked releases are due.
    pub release_times: Store<u64, u64>,
    pub dex_swaps: Store<u64, DexSwapRecord>,
    pub evidence: Store<u64, DisputeEvidences>,
    /// The arbiters on the allowlist.
    pub allowlist: Store<Address, bool>,
    /// The escrows of a client or freelancer.
    pub by_participant: Store<Address, Ids>,
    /// The escrows in a status.
    pub by_status: Store<EscrowStatus, Ids>,
    /// The cancellations that somebody asked for.
    pub by_requester: Store<Address, Ids>,
    /// The escrows over which somebody was slashed.
    pub by_slashed: Store<Address, Ids>,
    /// The status steps of an escrow.
    pub history: Store<u64, StateHistory>,
    pub nonces: Store<Address, u64>,
    /// The deadlines that one party has proposed.
    pub pending_deadlines: Store<u64, u64>,
}

/// What `Book` stands for.
pub struct BookView {
    pub metas: Map<PackedDataKey, MetaView>,
    pub milestones: Map<PackedDataKey, MilestoneView>,
    pub recurring: Map<PackedDataKey, RecurringPaymentConfig>,
    pub fee_snapshots: Map<u64, EscrowFeeSnapshot>,
    pub reputations: Map<Address, ReputationRecord>,
    pub cancellations: Map<u64, CancellationView>,
    pub slashes: Map<u64, SlashView>,
    pub frozen: Map<u64, bool>,
    pub templates: Map<u64, TemplateView>,
    pub terms: Map<u64, TermsAcceptance>,
    pub release_times: Map<u64, u64>,
    pub dex_swaps: Map<u64, DexSwapRecord>,
    pub evidence: Map<u64, Seq<EvidenceView>>,
    pub allowlist: Map<Address, bool>,
    pub by_participant: Map<Address, Seq<u64>>,
    pub by_status: Map<EscrowStatus, Seq<u64>>,
    pub by_requester: Map<Address, Seq<u64>>,
    pub by_slashed: Map<Address, Seq<u64>>,
    pub history: Map<u64, Seq<StateHistoryEntry>>,
    pub nonces: Map<Address, u64>,
    pub pending_deadlines: Map<u64, u64>,
}

impl View for Book {
    type V = BookView;

    open spec fn view(&self) -> BookView {
        BookView {
            metas: self.metas@,
            milestones: self.milestones@,
            recurring: self.recurring@,
            fee_snapshots: self.fee_snapshots@,
            reputations: self.reputations@,
            cancellations: self.cancellations@,
            slashes: self.slashes@,
            frozen: self.frozen@,
            templates: self.templates@,
            terms: self.terms@,
            release_times: self.release_times@,
            dex_swaps: self.dex_swaps@,
            evidence: self.evidence@,
            allowlist: self.allowlist@,
            by_participant: self.by_participant@,
            by_status: self.by_status@,
            by_requester: self.by_requester@,
            by_slashed: self.by_slashed@,
            history: self.history@,
            nonces: self.nonces@,
            pending_deadlines: self.pending_deadlines@,
        }
    }
}

impl Book {
    /// The entries of a contract that nobody has touched.
    pub open spec fn blank() -> BookView {
        BookView {
            metas: Map::empty(),
            milestones: Map::empty(),
            recurring: Map::empty(),
            fee_snapshots: Map::empty(),
            reputations: Map::empty(),
            cancellations: Map::empty(),
            slashes: Map::empty(),
            frozen: Map::empty(),
            templates: Map::empty(),
            terms: Map::empty(),
            release_times: Map::empty(),
            dex_swaps: Map::empty(),
            evidence: Map::empty(),
            allowlist: Map::empty(),
            by_participant: Map::empty(),
            by_status: Map::empty(),
            by_requester: Map::empty(),
            by_slashed: Map::empty(),
            history: Map::empty(),
            nonces: Map::empty(),
            pending_deadlines: Map::empty(),
        }
    }

    /// The entries of a contract that nobody has touched.
    pub fn new() -> (r: Book)
        ensures
            r@ == Book::blank(),
    {
        Book {
            metas: Store::new(),
            milestones: Store::new(),
            recurring: Store::new(),
            fee_snapshots: Store::new(),
            reputations: Store::new(),
            cancellations: Store::new(),
            slashes: Store::new(),
            frozen: Store::new(),
            templates: Store::new(),
            terms: Store::new(),
            release_times: Store::new(),
            dex_swaps: Store::new(),
            evidence: Store::new(),
            allowlist: Store::new(),
            by_participant: Store::new(),
            by_status: Store::new(),
            by_requester: Store::new(),
            by_slashed: Store::new(),
            history: Store::new(),
            nonces: Store::new(),
            pending_deadlines: Store::new(),
        }
    }
}

impl Record for Book {
    fn dup(&self) -> (r: Self) {
        Book {
            metas: self.metas.dup(),
            milestones: self.milestones.dup(),
            recurring: self.recurring.dup(),
            fee_snapshots: self.fee_snapshots.dup(),
            reputations: self.reputations.dup(),
            cancellations: self.cancellations.dup(),
            slashes: self.slashes.dup(),
            frozen: self.frozen.dup(),
            templates: self.templates.dup(),
            terms: self.terms.dup(),
            release_times: self.release_times.dup(),
            dex_swaps: self.dex_swaps.dup(),
            evidence: self.evidence.dup(),
            allowlist: self.allowlist.dup(),
            by_participant: self.by_participant.dup(),
            by_status: self.by_status.dup(),
            by_requester: self.by_requester.dup(),
            by_slashed: self.by_slashed.dup(),
            history: self.history.dup(),
            nonces: self.nonces.dup(),
            pending_deadlines: self.pending_deadlines.dup(),
        }
    }
}

impl View for EscrowError {
    type V = EscrowError;

    open spec fn view(&self) -> EscrowError {
        *self
    }
}

impl Record for EscrowError {
    fn dup(&self) -> (r: Self) {
        *self
    }
}

/// The ledger, as a request sees it: the clock, what the services around the
/// contract answer in this ledger, the contract's entries, and what the request
/// has asked of the host so far.
pub struct Ledger {
    pub timestamp: u64,
    pub sequence: u32,
    /// The contract's own address.
    pub contract: Address,
    /// Where the host keeps its lists.
    pub host: soroban_sdk::Env,
    /// The prices that the oracle has, by asset.
    pub prices: Store<Address, i128>,
    /// What the oracle answers for an asset that it has no price for.
    pub no_price: EscrowError,
    /// The tokens that the bridge refuses, with its answer.
    pub barred: Store<Address, EscrowError>,
    pub config: Config,
    pub book: Book,
    pub log: Vec<Effect>,
}

/// What `Ledger` stands for.
pub struct LedgerView {
    pub timestamp: u64,
    pub sequence: u32,
    pub contract: Address,
    pub prices: Map<Address, i128>,
    pub no_price: EscrowError,
    pub barred: Map<Address, EscrowError>,
    pub config: ConfigView,
    pub book: BookView,
    pub log: Seq<EffectView>,
}

impl View for Ledger {
    type V = LedgerView;

    open spec fn view(&self) -> LedgerView {
        LedgerView {
            timestamp: self.timestamp,
            sequence: self.sequence,
            contract: self.contract,
            prices: self.prices@,
            no_price: self.no_price,
            barred: self.barred@,
            config: self.config@,
            book: self.book@,
            log: effects(self.log@),
        }
    }
}

/// What a request comes to: the state after it and its answer, or why it is
/// refused.
pub type Outcome<T> = Result<(LedgerView, T), EscrowError>;

/// A request answered as `want` says: what it is granted stands in the state,
/// and a refusal leaves the state as it was.
pub open spec fn answers<T>(
    r: Result<T, EscrowError>,
    before: LedgerView,
    after: LedgerView,
    want: Outcome<T>,
) -> bool {
    match want {
        Ok((post, x)) => r == Ok::<T, EscrowError>(x) && after == post,
        Err(e) => r == Err::<T, EscrowError>(e) && after == before,
    }
}

/// As `answers`, for a step whose caller gives up the state when it is refused.
pub open spec fn attempts<T>(
    r: Result<T, EscrowError>,
    after: LedgerView,
    want: Outcome<T>,
) -> bool {
    match want {
        Ok((post, x)) => r == Ok::<T, EscrowError>(x) && after == post,
        Err(e) => r == Err::<T, EscrowError>(e),
    }
}

/// As `answers`, for an answer that stands for `x`.
pub open spec fn answers_view<T: View>(
    r: Result<T, EscrowError>,
    before: LedgerView,
    after: LedgerView,
    want: Outcome<T::V>,
) -> bool {
    match want {
        Ok((post, x)) => r is Ok && r->Ok_0@ == x && after == post,
        Err(e) => r == Err::<T, EscrowError>(e) && after == before,
    }
}

impl LedgerView {
    /// The state after something more was asked of the host.
    pub open spec fn logged(self, x: EffectView) -> LedgerView {
        LedgerView { log: self.log.push(x), ..self }
    }

    /// The state after `who` was asked to have signed.
    pub open spec fn authed(self, who: Address) -> LedgerView {
        self.logged(EffectView::RequireAuth(who))
    }

    /// The state after tokens left the contract.
    pub open spec fn paid(self, token: Address, to: Address, amount: i128) -> LedgerView {
        self.logged(EffectView::Transfer { token, from: self.contract, to, amount })
    }

    /// The state after tokens came into the contract.
    pub open spec fn charged(self, token: Address, from: Address, amount: i128) -> LedgerView {
        self.logged(EffectView::Transfer { token, from, to: self.contract, amount })
    }

    /// The state after observers were told.
    pub open spec fn told(self, event: Event) -> LedgerView {
        self.logged(EffectView::Publish(event))
    }

    /// The same, with a text.
    pub open spec fn told_text(self, event: Event, text: Seq<u8>) -> LedgerView {
        self.logged(EffectView::PublishText(event, text))
    }

    /// The same, with the ids of addresses.
    pub open spec fn told_ids(self, event: Event, ids: Seq<u64>) -> LedgerView {
        self.logged(EffectView::PublishIds(event, ids))
    }

    /// The state with another configuration.
    pub open spec fn with_config(self, config: ConfigView) -> LedgerView {
        LedgerView { config, ..self }
    }

    /// The state with other entries.
    pub open spec fn with_book(self, book: BookView) -> LedgerView {
        LedgerView { book, ..self }
    }

    /// What the oracle answers for an asset.
    pub open spec fn price(self, asset: Address) -> Result<i128, EscrowError> {
        if self.prices.contains_key(asset) {
            Ok(self.prices[asset])
        } else {
            Err(self.no_price)
        }
    }
}

impl Ledger {
    /// A contract that nobody has touched.
    pub fn new(host: soroban_sdk::Env, contract: Address) -> (r: Ledger)
        ensures
            r@ == (LedgerView {
                timestamp: 0,
                sequence: 0,
                contract,
                prices: Map::empty(),
                no_price: EscrowError::E2,
                barred: Map::empty(),
                config: Config::blank(),
                book: Book::blank(),
                log: Seq::empty(),
            }),
    {
        let r = Ledger {
            timestamp: 0,
            sequence: 0,
            contract,
            host,
            prices: Store::new(),
            no_price: EscrowError::E2,
            barred: Store::new(),
            config: Config::new(),
            book: Book::new(),
            log: Vec::new(),
        };
        assert(r@.log =~= Seq::<EffectView>::empty());
        r
    }

    /// A second state with the same contents.
    pub fn dup(&self) -> (r: Ledger)
        ensures
            r@ == self@,
    {
        let mut log: Vec<Effect> = Vec::new();
        let mut i: usize = 0;
        while i < self.log.len()
            invariant
                i <= self.log.len(),
                effects(log@) == effects(self.log@.take(i as int)),
            decreases self.log.len() - i,
        {
            let ghost before = log@;
            let x = self.log[i].dup();
            log.push(x);
            i = i + 1;
            assert(effects(log@) =~= effects(before).push(x@));
            assert(effects(self.log@.take(i as int)) =~= effects(self.log@.take(i - 1)).push(
                self.log@[i - 1]@,
            ));
        }
        assert(self.log@.take(i as int) =~= self.log@);
        Ledger {
            timestamp: self.timestamp,
            sequence: self.sequence,
            contract: self.contract,
            host: host_clone(&self.host),
            prices: self.prices.dup(),
            no_price: self.no_price,
            barred: self.barred.dup(),
            config: self.config.dup(),
            book: self.book.dup(),
            log,
        }
    }

    /// Asks something of the host.
    pub fn ask(&mut self, x: Effect)
        ensures
            final(self)@ == old(self)@.logged(x@),
    {
        self.log.push(x);
        assert(self@.log =~= old(self)@.log.push(x@));
    }

    /// Asks that `who` has signed the request.
    pub fn require_auth(&mut self, who: Address)
        ensures
            final(self)@ == old(self)@.authed(who),
    {
        self.ask(Effect::RequireAuth(who));
    }

    /// Pays tokens out of the contract.
    pub fn pay(&mut self, token: Address, to: Address, amount: i128)
        ensures
            final(self)@ == old(self)@.paid(token, to, amount),
    {
        self.ask(Effect::Transfer { token, from: self.contract, to, amount });
    }

    /// Takes tokens into the contract.
    pub fn charge(&mut self, token: Address, from: Address, amount: i128)
        ensures
            final(self)@ == old(self)@.charged(token, from, amount),
    {
        self.ask(Effect::Transfer { token, from, to: self.contract, amount });
    }

    /// Tells observers.
    pub fn publish(&mut self, event: Event)
        ensures
            final(self)@ == old(self)@.told(event),
    {
        self.ask(Effect::Publish(event));
    }

    /// Tells observers, and gives them a text.
    pub fn publish_text(&mut self, event: Event, text: &Text)
        ensures
            final(self)@ == old(self)@.told_text(event, text@),
    {
        self.ask(Effect::PublishText(event, text.dup()));
    }

    /// Tells observers, and gives them the ids of addresses.
    pub fn publish_ids(&mut self, event: Event, ids: &Ids)
        ensures
            final(self)@ == old(self)@.told_ids(event, ids@),
    {
        self.ask(Effect::PublishIds(event, ids.dup()));
    }

    /// The price of an asset, as the oracle answers in this ledger.
    pub fn price_of(&self, asset: Address) -> (r: Result<i128, EscrowError>)
        ensures
            r == self@.price(asset),
    {
        match self.prices.get(asset) {
            Some(p) => Ok(p),
            None => Err(self.no_price),
        }
    }
}

} // verus!
