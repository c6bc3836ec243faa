//! Setting the contract up and running it.
use vstd::prelude::*;

use crate::constants::{INITIAL_CONTRACT_VERSION, MAX_ORACLE_STALE_SECONDS};
use crate::contract::EscrowContract;
use crate::errors::EscrowError;
use crate::events::{Effect, EffectView, Event};
use crate::fees::usable_tiers;
use crate::host::Ids;
use crate::ledger::{answers, BookView, ConfigView, Ledger, LedgerView, Outcome};
use crate::storage::ContractStorage;
use crate::store::Record;
use crate::types::{
    Address, BridgeConfirmation, BridgeProtocol, ContractVersionInfo, FeeTier, FeeTiers, Hash32,
    MetaTransaction, WrappedTokenInfo, WrappedTokenView,
};

verus! {

/// How many different configured signers are among the first `k` of those who
/// are presented.
pub open spec fn signers_present(configured: Seq<u64>, presented: Seq<u64>, k: nat) -> nat
    decreases k,
{
    if k == 0 {
        0
    } else {
        let before = signers_present(configured, presented, (k - 1) as nat);
        let x = presented[k - 1];
        if configured.contains(x) && !presented.take(k - 1).contains(x) {
            before + 1
        } else {
            before
        }
    }
}

impl LedgerView {
    /// The admin changes the configuration.
    pub open spec fn by_admin(self, caller: Address, config: ConfigView) -> Outcome<()> {
        match self.admin_check(caller) {
            Err(e) => Err(e),
            Ok(()) => Ok((self.authed(caller).with_config(config), ())),
        }
    }

    /// Registers a bridged token.
    pub open spec fn wrapped_registered(
        self,
        caller: Address,
        info: WrappedTokenView,
    ) -> Outcome<()> {
        match self.admin_check(caller) {
            Err(e) => Err(e),
            Ok(()) => Ok(
                (
                    self.authed(caller).with_config(
                        ConfigView {
                            wrapped_tokens: self.config.wrapped_tokens.insert(
                                info.stellar_address,
                                info,
                            ),
                            ..self.config
                        },
                    ).told_text(
                        Event::WrappedTokenRegistered { token: info.stellar_address },
                        info.origin_chain,
                    ),
                    (),
                ),
            ),
        }
    }

    /// The admin changes the configuration, and observers are told.
    pub open spec fn by_admin_told(
        self,
        caller: Address,
        config: ConfigView,
        event: Event,
    ) -> Outcome<()> {
        match self.admin_check(caller) {
            Err(e) => Err(e),
            Ok(()) => Ok((self.authed(caller).with_config(config).told(event), ())),
        }
    }

    /// The state after the contract was set up: the admin is its own treasury
    /// and its only signer.
    pub open spec fn initialized(
        self,
        admin: Address,
        signers: Seq<u64>,
        threshold: u32,
    ) -> LedgerView {
        self.authed(admin).with_config(
            ConfigView {
                admin: Some(admin),
                admin_signers: Some(signers),
                admin_threshold: Some(threshold),
                escrow_counter: 0,
                platform_treasury: Some(admin),
                contract_version: Some(
                    ContractVersionInfo {
                        version: INITIAL_CONTRACT_VERSION,
                        deployed_at: self.timestamp,
                        last_upgraded_at: self.timestamp,
                        upgrade_count: 0,
                    },
                ),
                ..self.config
            },
        ).told(Event::AdminInitialized { admin })
    }

    /// Sets the contract up, once.
    pub open spec fn initialize(self, admin: Address) -> Outcome<()> {
        if self.config.admin is Some {
            Err(EscrowError::E1)
        } else {
            Ok((self.initialized(admin, seq![admin.id], 1), ()))
        }
    }

    /// Sets the contract up with several signers, once.
    pub open spec fn initialize_signers(
        self,
        admin: Address,
        signers: Seq<u64>,
        threshold: u32,
    ) -> Outcome<()> {
        if threshold == 0 || threshold > signers.len() {
            Err(EscrowError::E63)
        } else if self.config.admin is Some {
            Err(EscrowError::E1)
        } else {
            Ok((self.initialized(admin, signers, threshold), ()))
        }
    }

    /// Replaces the signers of the admins.
    pub open spec fn set_signers(
        self,
        caller: Address,
        signers: Seq<u64>,
        threshold: u32,
    ) -> Outcome<()> {
        match self.admin_check(caller) {
            Err(e) => Err(e),
            Ok(()) => if threshold == 0 || threshold > signers.len() {
                Err(EscrowError::E63)
            } else {
                self.by_admin(
                    caller,
                    ConfigView {
                        admin_signers: Some(signers),
                        admin_threshold: Some(threshold),
                        ..self.config
                    },
                )
            },
        }
    }

    /// The signers of the admins.
    pub open spec fn signers(self) -> Seq<u64> {
        match self.config.admin_signers {
            Some(s) => s,
            None => Seq::empty(),
        }
    }

    /// How many signers of the admins have to sign.
    pub open spec fn signer_threshold(self) -> u32 {
        match self.config.admin_threshold {
            Some(t) => t,
            None => 1,
        }
    }

    /// The state after the first `k` of those presented were asked to have
    /// signed.
    pub open spec fn all_authed(self, presented: Seq<u64>, k: nat) -> LedgerView
        decreases k,
    {
        if k == 0 {
            self
        } else {
            self.all_authed(presented, (k - 1) as nat).authed(Address { id: presented[k - 1] })
        }
    }

    /// Freezes an escrow or lifts that; enough signers of the admins have to
    /// sign.
    pub open spec fn set_frozen(self, id: u64, presented: Seq<u64>, frozen: bool) -> Outcome<()> {
        if self.config.admin is None {
            Err(EscrowError::E2)
        } else {
            match self.accessed(id) {
                Err(e) => Err(e),
                Ok((env, _)) => if signers_present(self.signers(), presented, presented.len())
                    < self.signer_threshold() {
                    Err(EscrowError::E62)
                } else {
                    let asked = env.all_authed(presented, presented.len());
                    Ok(
                        (
                            asked.with_book(
                                BookView {
                                    frozen: asked.book.frozen.insert(id, frozen),
                                    ..asked.book
                                },
                            ).told_ids(
                                if frozen {
                                    Event::EscrowFrozen {
                                        escrow_id: id,
                                        sequence: self.sequence,
                                        timestamp: self.timestamp,
                                    }
                                } else {
                                    Event::EscrowUnfrozen {
                                        escrow_id: id,
                                        sequence: self.sequence,
                                        timestamp: self.timestamp,
                                    }
                                },
                                presented,
                            ),
                            (),
                        ),
                    )
                },
            }
        }
    }

    /// Pauses the contract or lifts that; nothing changes where it is so
    /// already.
    pub open spec fn set_paused(self, caller: Address, paused: bool) -> Outcome<()> {
        if self.config.paused == paused {
            self.by_admin(caller, self.config)
        } else {
            self.by_admin_told(
                caller,
                ConfigView { paused, ..self.config },
                if paused {
                    Event::ContractPaused { by: caller }
                } else {
                    Event::ContractUnpaused { by: caller }
                },
            )
        }
    }

    /// The proposed admin takes over.
    pub open spec fn accept_admin(self, caller: Address) -> Outcome<()> {
        if self.config.admin is None {
            Err(EscrowError::E2)
        } else if self.config.pending_admin != Some(caller) {
            Err(EscrowError::E3)
        } else {
            Ok(
                (
                    self.authed(caller).with_config(
                        ConfigView { admin: Some(caller), pending_admin: None, ..self.config },
                    ).told(
                        Event::AdminChanged {
                            old_admin: self.config.admin->Some_0,
                            new_admin: caller,
                        },
                    ),
                    (),
                ),
            )
        }
    }

    /// The version of the code that runs.
    pub open spec fn version(self) -> ContractVersionInfo {
        match self.config.contract_version {
            Some(v) => v,
            None => ContractVersionInfo {
                version: 0,
                deployed_at: self.timestamp,
                last_upgraded_at: self.timestamp,
                upgrade_count: 0,
            },
        }
    }

    /// Replaces the code, once the entries have been migrated; `migrated` is how
    /// that went. The answer is the new version.
    pub open spec fn upgrade(
        self,
        caller: Address,
        code: Hash32,
        migrated: Result<(), EscrowError>,
    ) -> Outcome<u32> {
        let v = self.version();
        if self.config.admin is None {
            Err(EscrowError::E2)
        } else if self.config.admin != Some(caller) {
            Err(EscrowError::E87)
        } else if migrated is Err {
            Err(migrated->Err_0)
        } else if v.version == u32::MAX {
            Err(EscrowError::E20)
        } else {
            let next = ContractVersionInfo {
                version: (v.version + 1) as u32,
                last_upgraded_at: self.timestamp,
                upgrade_count: if v.upgrade_count == u32::MAX {
                    u32::MAX
                } else {
                    (v.upgrade_count + 1) as u32
                },
                ..v
            };
            Ok(
                (
                    self.authed(caller).with_config(
                        ConfigView { contract_version: Some(next), ..self.config },
                    ).told(
                        Event::ContractVersionUpgraded {
                            old_version: v.version,
                            new_version: next.version,
                        },
                    ).logged(EffectView::UpdateWasm(code)),
                    next.version,
                ),
            )
        }
    }

    /// The admin puts an arbiter on the allowlist.
    pub open spec fn allow_arbiter(self, caller: Address, arbiter: Address) -> Outcome<()> {
        match self.admin_check(caller) {
            Err(e) => Err(e),
            Ok(()) => if self.is_allowed(arbiter) {
                Err(EscrowError::E91)
            } else {
                Ok(
                    (
                        self.authed(caller).with_book(
                            BookView {
                                allowlist: self.book.allowlist.insert(arbiter, true),
                                ..self.book
                            },
                        ),
                        (),
                    ),
                )
            },
        }
    }

    /// The admin takes an arbiter off the allowlist.
    pub open spec fn disallow_arbiter(self, caller: Address, arbiter: Address) -> Outcome<()> {
        match self.admin_check(caller) {
            Err(e) => Err(e),
            Ok(()) => if !self.is_allowed(arbiter) {
                Err(EscrowError::E92)
            } else {
                Ok(
                    (
                        self.authed(caller).with_book(
                            BookView {
                                allowlist: self.book.allowlist.remove(arbiter),
                                ..self.book
                            },
                        ),
                        (),
                    ),
                )
            },
        }
    }

    /// How far a bridged token has been confirmed is noted; `needed` is how many
    /// confirmations the bridge counts as final.
    pub open spec fn bridge_noted(
        self,
        token: Address,
        bridge: BridgeProtocol,
        confirmations: u32,
        needed: u32,
    ) -> Outcome<()> {
        if self.config.admin is None {
            Err(EscrowError::E2)
        } else {
            let c = BridgeConfirmation {
                token,
                bridge,
                confirmations,
                is_finalized: confirmations >= needed,
                updated_at: self.timestamp,
            };
            Ok(
                (
                    self.with_config(
                        ConfigView {
                            bridge_confirmations: self.config.bridge_confirmations.insert(token, c),
                            ..self.config
                        },
                    ).told(
                        Event::BridgeConfirmationUpdated {
                            token,
                            confirmations,
                            is_finalized: c.is_finalized,
                        },
                    ),
                    (),
                ),
            )
        }
    }

    /// The admin names the oracle.
    pub open spec fn set_oracle(self, caller: Address, oracle: Address) -> Outcome<()> {
        self.by_admin(caller, ConfigView { oracle: Some(oracle), ..self.config })
    }

    /// The admin names the oracle to ask second.
    pub open spec fn set_fallback_oracle(self, caller: Address, oracle: Address) -> Outcome<()> {
        self.by_admin(caller, ConfigView { fallback_oracle: Some(oracle), ..self.config })
    }

    /// The admin sets after how many seconds a price is stale: at most a day.
    pub open spec fn set_oracle_stale_threshold(
        self,
        caller: Address,
        seconds: u64,
    ) -> Outcome<()> {
        match self.admin_check(caller) {
            Err(e) => Err(e),
            Ok(()) => if seconds == 0 || seconds > MAX_ORACLE_STALE_SECONDS {
                Err(EscrowError::E19)
            } else {
                self.by_admin(
                    caller,
                    ConfigView { oracle_stale_threshold: Some(seconds), ..self.config },
                )
            },
        }
    }

    /// The admin names the bridge.
    pub open spec fn set_wormhole_bridge(self, caller: Address, bridge: Address) -> Outcome<()> {
        self.by_admin(caller, ConfigView { wormhole_bridge: Some(bridge), ..self.config })
    }

    /// The admin sets the score that an arbiter needs.
    pub open spec fn set_min_arbiter_reputation(
        self,
        caller: Address,
        new_min: u64,
    ) -> Outcome<()> {
        self.by_admin(
            caller,
            ConfigView { min_arbiter_reputation: Some(new_min), ..self.config },
        )
    }

    /// The admin sets the amount from which an escrow needs more than one approver.
    pub open spec fn set_high_value_threshold(
        self,
        caller: Address,
        threshold: i128,
    ) -> Outcome<()> {
        match self.admin_check(caller) {
            Err(e) => Err(e),
            Ok(()) => if threshold <= 0 {
                Err(EscrowError::MultisigInvalidConfig)
            } else {
                self.by_admin(
                    caller,
                    ConfigView { high_value_threshold: Some(threshold), ..self.config },
                )
            },
        }
    }

    /// The admin names the governance contract.
    pub open spec fn set_governance_contract(
        self,
        caller: Address,
        governance: Address,
    ) -> Outcome<()> {
        self.by_admin(
            caller,
            ConfigView { governance_contract: Some(governance), ..self.config },
        )
    }

    /// The admin names who gets the fees.
    pub open spec fn set_platform_treasury(
        self,
        caller: Address,
        treasury: Address,
    ) -> Outcome<()> {
        self.by_admin(caller, ConfigView { platform_treasury: Some(treasury), ..self.config })
    }

    /// The admin sets the fee tiers.
    pub open spec fn set_platform_fee_tiers(
        self,
        caller: Address,
        tiers: Seq<FeeTier>,
    ) -> Outcome<()> {
        match self.admin_check(caller) {
            Err(e) => Err(e),
            Ok(()) => if !usable_tiers(tiers) {
                Err(EscrowError::E19)
            } else {
                self.by_admin(caller, ConfigView { platform_fee_tiers: Some(tiers), ..self.config })
            },
        }
    }

    /// The admin sets how many milestones an escrow may have: up to a hundred.
    pub open spec fn set_max_milestones(self, caller: Address, new_max: u32) -> Outcome<()> {
        match self.admin_check(caller) {
            Err(e) => Err(e),
            Ok(()) => if new_max == 0 || new_max > 100 {
                Err(EscrowError::E17)
            } else {
                self.by_admin_told(
                    caller,
                    ConfigView { max_milestones: Some(new_max), ..self.config },
                    Event::MaxMilestonesSet { new_max },
                )
            },
        }
    }

    /// The admin names the key that signs decisions on disputes.
    pub open spec fn set_trusted_oracle_key(self, caller: Address, key: Hash32) -> Outcome<()> {
        self.by_admin(caller, ConfigView { trusted_oracle_key: Some(key), ..self.config })
    }

    /// The admin proposes another one.
    pub open spec fn propose_admin(self, caller: Address, next: Address) -> Outcome<()> {
        self.by_admin_told(
            caller,
            ConfigView { pending_admin: Some(next), ..self.config },
            Event::AdminProposed { by: caller, new_admin: next },
        )
    }

    /// The admin puts a token on the whitelist.
    pub open spec fn add_approved_token(self, caller: Address, token: Address) -> Outcome<()> {
        self.by_admin_told(
            caller,
            ConfigView {
                approved_tokens: self.config.approved_tokens.insert(token, true),
                ..self.config
            },
            Event::TokenWhitelistAdded { by: caller, token },
        )
    }

    /// The admin takes a token off the whitelist.
    pub open spec fn remove_approved_token(self, caller: Address, token: Address) -> Outcome<()> {
        self.by_admin_told(
            caller,
            ConfigView {
                approved_tokens: self.config.approved_tokens.remove(token),
                ..self.config
            },
            Event::TokenWhitelistRemoved { by: caller, token },
        )
    }

    /// The admin says whether the whitelist holds.
    pub open spec fn set_token_whitelist_enabled(
        self,
        caller: Address,
        enabled: bool,
    ) -> Outcome<()> {
        self.by_admin_told(
            caller,
            ConfigView { token_whitelist_enabled: enabled, ..self.config },
            Event::TokenWhitelistSet { by: caller, enabled },
        )
    }

    /// Takes note of a signer's nonce, which has to be larger than the last.
    pub open spec fn nonce_used(self, signer: Address, nonce: u64) -> Outcome<()> {
        let last = if self.book.nonces.contains_key(signer) {
            self.book.nonces[signer]
        } else {
            0
        };
        if nonce <= last {
            Err(EscrowError::E3)
        } else {
            Ok(
                (
                    self.with_book(
                        BookView { nonces: self.book.nonces.insert(signer, nonce), ..self.book },
                    ),
                    (),
                ),
            )
        }
    }
}

impl ContractStorage {
    /// Sets the contract up.
    pub fn initialize(env: &mut Ledger, admin: Address) -> (r: Result<(), EscrowError>)
        ensures
            answers(r, old(env)@, final(env)@, old(env)@.initialize(admin)),
    {
        if env.config.admin.is_some() {
            return Err(EscrowError::E1);
        }
        env.require_auth(admin);
        let mut signers = Ids::new(&env.host);
        signers.push_back(admin.id);
        assert(signers@ =~= seq![admin.id]);
        env.config.admin = Some(admin);
        env.config.admin_signers = Some(signers);
        env.config.admin_threshold = Some(1);
        env.config.escrow_counter = 0;
        env.config.platform_treasury = Some(admin);
        let now: u64 = env.timestamp;
        env.config.contract_version = Some(
            ContractVersionInfo {
                version: INITIAL_CONTRACT_VERSION,
                deployed_at: now,
                last_upgraded_at: now,
                upgrade_count: 0,
            },
        );
        env.publish(Event::AdminInitialized { admin });
        Ok(())
    }

    /// Takes note of a signer's nonce.
    pub fn _validate_and_update_nonce(
        env: &mut Ledger,
        signer: Address,
        nonce: u64,
    ) -> (r: Result<(), EscrowError>)
        ensures
            answers(r, old(env)@, final(env)@, old(env)@.nonce_used(signer, nonce)),
    {
        let last: u64 = match env.book.nonces.get(signer) {
            Some(n) => n,
            None => 0,
        };
        if nonce <= last {
            return Err(EscrowError::E3);
        }
        env.book.nonces.set(signer, nonce);
        Ok(())
    }

    /// Where a migration stopped.
    pub fn _get_migration_cursor(env: &Ledger) -> (r: u64)
        ensures
            r == env@.config.migration_cursor,
    {
        env.config.migration_cursor
    }

    /// Notes where a migration stopped.
    pub fn _set_migration_cursor(env: &mut Ledger, cursor: u64)
        ensures
            final(env)@ == old(env)@.with_config(
                (ConfigView { migration_cursor: cursor, ..old(env)@.config }),
            ),
    {
        env.config.migration_cursor = cursor;
    }
}

impl EscrowContract {
    /// Sets the contract up.
    pub fn initialize(env: &mut Ledger, admin: Address) -> (r: Result<(), EscrowError>)
        ensures
            answers(r, old(env)@, final(env)@, old(env)@.initialize(admin)),
    {
        ContractStorage::initialize(env, admin)
    }

    /// Sets the contract up with several signers.
    pub fn initialize_with_admin_signers(
        env: &mut Ledger,
        admin: Address,
        admin_signers: Ids,
        threshold: u32,
    ) -> (r: Result<(), EscrowError>)
        ensures
            answers(
                r,
                old(env)@,
                final(env)@,
                old(env)@.initialize_signers(admin, admin_signers@, threshold),
            ),
    {
        if threshold == 0 || threshold > admin_signers.len() {
            return Err(EscrowError::E63);
        }
        ContractStorage::initialize(env, admin)?;
        env.config.admin_signers = Some(admin_signers);
        env.config.admin_threshold = Some(threshold);
        Ok(())
    }

    /// The admin replaces the signers of the admins.
    pub fn set_admin_multisig(
        env: &mut Ledger,
        caller: Address,
        admin_signers: Ids,
        threshold: u32,
    ) -> (r: Result<(), EscrowError>)
        ensures
            answers(
                r,
                old(env)@,
                final(env)@,
                old(env)@.set_signers(caller, admin_signers@, threshold),
            ),
    {
        ContractStorage::require_admin(env, caller)?;
        if threshold == 0 || threshold > admin_signers.len() {
            return Err(EscrowError::E63);
        }
        env.require_auth(caller);
        env.config.admin_signers = Some(admin_signers);
        env.config.admin_threshold = Some(threshold);
        Ok(())
    }

    /// How many different configured signers are among those presented.
    fn count_signers(configured: &Ids, presented: &Ids) -> (r: u32)
        ensures
            r == signers_present(configured@, presented@, presented@.len()),
    {
        let n: u32 = presented.len();
        let mut count: u32 = 0;
        let mut i: u32 = 0;
        while i < n
            invariant
                i <= n,
                n == presented@.len(),
                count <= i,
                count == signers_present(configured@, presented@, i as nat),
            decreases n - i,
        {
            match presented.get(i) {
                None => {
                    assert(false);
                },
                Some(x) => {
                    let mut seen = false;
                    let mut j: u32 = 0;
                    while j < i
                        invariant
                            j <= i < n,
                            n == presented@.len(),
                            seen == presented@.take(j as int).contains(x),
                        decreases i - j,
                    {
                        proof {
                            let a = presented@.take(j as int);
                            let b = presented@.take(j + 1);
                            assert(b =~= a.push(presented@[j as int]));
                            if a.contains(x) {
                                let k = choose|k: int| 0 <= k < a.len() && a[k] == x;
                                assert(b[k] == x);
                            }
                            if b.contains(x) {
                                let k = choose|k: int| 0 <= k < b.len() && b[k] == x;
                                if k < a.len() {
                                    assert(a[k] == x);
                                }
                            }
                            assert(b[j as int] == presented@[j as int]);
                        }
                        if let Some(y) = presented.get(j) {
                            if y == x {
                                seen = true;
                            }
                        }
                        j = j + 1;
                    }
                    if !seen && configured.contains(x) {
                        count = count + 1;
                    }
                },
            }
            i = i + 1;
        }
        count
    }

    fn change_frozen(env: &mut Ledger, escrow_id: u64, admin_signers: &Ids, frozen: bool) -> (r:
        Result<(), EscrowError>)
        requires
            old(env)@.rent_ok(escrow_id),
        ensures
            answers(
                r,
                old(env)@,
                final(env)@,
                old(env)@.set_frozen(escrow_id, admin_signers@, frozen),
            ),
    {
        let mut tx = env.dup();
        ContractStorage::require_initialized(&tx)?;
        ContractStorage::ensure_live_escrow(&mut tx, escrow_id)?;
        let configured = match &tx.config.admin_signers {
            Some(s) => s.dup(),
            None => Ids::new(&tx.host),
        };
        let threshold: u32 = match tx.config.admin_threshold {
            Some(t) => t,
            None => 1,
        };
        if Self::count_signers(&configured, admin_signers) < threshold {
            return Err(EscrowError::E62);
        }
        let ghost base = tx@;
        let n: u32 = admin_signers.len();
        let mut i: u32 = 0;
        while i < n
            invariant
                i <= n,
                n == admin_signers@.len(),
                tx@ == base.all_authed(admin_signers@, i as nat),
            decreases n - i,
        {
            if let Some(x) = admin_signers.get(i) {
                tx.require_auth(Address { id: x });
            }
            i = i + 1;
        }
        proof {
            lemma_all_authed(base, admin_signers@, n as nat);
        }
        tx.book.frozen.set(escrow_id, frozen);
        let sequence: u32 = tx.sequence;
        let timestamp: u64 = tx.timestamp;
        let event = if frozen {
            Event::EscrowFrozen { escrow_id, sequence, timestamp }
        } else {
            Event::EscrowUnfrozen { escrow_id, sequence, timestamp }
        };
        tx.publish_ids(event, admin_signers);
        *env = tx;
        Ok(())
    }

    /// Enough signers of the admins freeze an escrow.
    pub fn freeze_escrow(
        env: &mut Ledger,
        escrow_id: u64,
        admin_signers: &Ids,
    ) -> (r: Result<(), EscrowError>)
        requires
            old(env)@.rent_ok(escrow_id),
        ensures
            answers(
                r,
                old(env)@,
                final(env)@,
                old(env)@.set_frozen(escrow_id, admin_signers@, true),
            ),
    {
        Self::change_frozen(env, escrow_id, admin_signers, true)
    }

    /// Enough signers of the admins unfreeze an escrow.
    pub fn unfreeze_escrow(
        env: &mut Ledger,
        escrow_id: u64,
        admin_signers: &Ids,
    ) -> (r: Result<(), EscrowError>)
        requires
            old(env)@.rent_ok(escrow_id),
        ensures
            answers(
                r,
                old(env)@,
                final(env)@,
                old(env)@.set_frozen(escrow_id, admin_signers@, false),
            ),
    {
        Self::change_frozen(env, escrow_id, admin_signers, false)
    }

    /// The admin names the price oracle.
    pub fn set_oracle(
        env: &mut Ledger,
        caller: Address,
        oracle: Address,
    ) -> (r: Result<(), EscrowError>)
        ensures
            answers(r, old(env)@, final(env)@, old(env)@.set_oracle(caller, oracle)),
    {
        ContractStorage::require_admin(env, caller)?;
        env.require_auth(caller);
        env.config.oracle = Some(oracle);
        Ok(())
    }

    /// The admin names the oracle to fall back on.
    pub fn set_fallback_oracle(
        env: &mut Ledger,
        caller: Address,
        oracle: Address,
    ) -> (r: Result<(), EscrowError>)
        ensures
            answers(r, old(env)@, final(env)@, old(env)@.set_fallback_oracle(caller, oracle)),
    {
        ContractStorage::require_admin(env, caller)?;
        env.require_auth(caller);
        env.config.fallback_oracle = Some(oracle);
        Ok(())
    }

    /// The admin sets after how many seconds a price is stale: at most a day.
    pub fn set_oracle_stale_threshold(
        env: &mut Ledger,
        caller: Address,
        threshold_seconds: u64,
    ) -> (r: Result<(), EscrowError>)
        ensures
            answers(
                r,
                old(env)@,
                final(env)@,
                old(env)@.set_oracle_stale_threshold(caller, threshold_seconds),
            ),
    {
        ContractStorage::require_admin(env, caller)?;
        if threshold_seconds == 0 || threshold_seconds > MAX_ORACLE_STALE_SECONDS {
            return Err(EscrowError::E19);
        }
        env.require_auth(caller);
        env.config.oracle_stale_threshold = Some(threshold_seconds);
        Ok(())
    }

    /// The admin names the bridge.
    pub fn set_wormhole_bridge(
        env: &mut Ledger,
        caller: Address,
        bridge_addr: Address,
    ) -> (r: Result<(), EscrowError>)
        ensures
            answers(r, old(env)@, final(env)@, old(env)@.set_wormhole_bridge(caller, bridge_addr)),
    {
        ContractStorage::require_admin(env, caller)?;
        env.require_auth(caller);
        env.config.wormhole_bridge = Some(bridge_addr);
        Ok(())
    }

    /// The admin registers a bridged token.
    pub fn register_wrapped_token(
        env: &mut Ledger,
        caller: Address,
        info: WrappedTokenInfo,
    ) -> (r: Result<(), EscrowError>)
        ensures
            answers(
                r,
                old(env)@,
                final(env)@,
                old(env)@.wrapped_registered(caller, info@),
            ),
    {
        ContractStorage::require_admin(env, caller)?;
        env.require_auth(caller);
        let token = info.stellar_address;
        let origin_chain = info.origin_chain.dup();
        env.config.wrapped_tokens.set(token, info);
        env.publish_text(Event::WrappedTokenRegistered { token }, &origin_chain);
        Ok(())
    }

    /// The admin sets the score that an arbiter with a record needs.
    pub fn set_min_arbiter_reputation(
        env: &mut Ledger,
        caller: Address,
        new_min: u64,
    ) -> (r: Result<(), EscrowError>)
        ensures
            answers(
                r,
                old(env)@,
                final(env)@,
                old(env)@.set_min_arbiter_reputation(caller, new_min),
            ),
    {
        ContractStorage::require_admin(env, caller)?;
        env.require_auth(caller);
        env.config.min_arbiter_reputation = Some(new_min);
        Ok(())
    }

    /// The admin sets the amount from which an escrow needs more than one
    /// approver.
    pub fn set_high_value_threshold(
        env: &mut Ledger,
        caller: Address,
        threshold: i128,
    ) -> (r: Result<(), EscrowError>)
        ensures
            answers(
                r,
                old(env)@,
                final(env)@,
                old(env)@.set_high_value_threshold(caller, threshold),
            ),
    {
        ContractStorage::require_admin(env, caller)?;
        if threshold <= 0 {
            return Err(EscrowError::MultisigInvalidConfig);
        }
        env.require_auth(caller);
        env.config.high_value_threshold = Some(threshold);
        Ok(())
    }

    /// The admin names the governance contract.
    pub fn set_governance_contract(
        env: &mut Ledger,
        caller: Address,
        governance_addr: Address,
    ) -> (r: Result<(), EscrowError>)
        ensures
            answers(
                r,
                old(env)@,
                final(env)@,
                old(env)@.set_governance_contract(caller, governance_addr),
            ),
    {
        ContractStorage::require_admin(env, caller)?;
        env.require_auth(caller);
        env.config.governance_contract = Some(governance_addr);
        Ok(())
    }

    /// The admin names the treasury.
    pub fn set_platform_treasury(
        env: &mut Ledger,
        caller: Address,
        treasury: Address,
    ) -> (r: Result<(), EscrowError>)
        ensures
            answers(r, old(env)@, final(env)@, old(env)@.set_platform_treasury(caller, treasury)),
    {
        ContractStorage::require_admin(env, caller)?;
        env.require_auth(caller);
        env.config.platform_treasury = Some(treasury);
        Ok(())
    }

    /// The admin sets the fee tiers.
    pub fn set_platform_fee_tiers(
        env: &mut Ledger,
        caller: Address,
        tiers: FeeTiers,
    ) -> (r: Result<(), EscrowError>)
        ensures
            answers(r, old(env)@, final(env)@, old(env)@.set_platform_fee_tiers(caller, tiers@)),
    {
        ContractStorage::require_admin(env, caller)?;
        Self::validate_fee_tiers(&tiers)?;
        env.require_auth(caller);
        env.config.platform_fee_tiers = Some(tiers);
        Ok(())
    }

    /// The admin sets how many milestones an escrow may have.
    pub fn set_max_milestones(
        env: &mut Ledger,
        caller: Address,
        new_max: u32,
    ) -> (r: Result<(), EscrowError>)
        ensures
            answers(r, old(env)@, final(env)@, old(env)@.set_max_milestones(caller, new_max)),
    {
        ContractStorage::require_admin(env, caller)?;
        if new_max == 0 || new_max > 100 {
            return Err(EscrowError::E17);
        }
        env.require_auth(caller);
        env.config.max_milestones = Some(new_max);
        env.publish(Event::MaxMilestonesSet { new_max });
        Ok(())
    }

    /// The admin names the key that signs decisions on disputes.
    pub fn set_trusted_oracle_key(
        env: &mut Ledger,
        caller: Address,
        pubkey: Hash32,
    ) -> (r: Result<(), EscrowError>)
        ensures
            answers(r, old(env)@, final(env)@, old(env)@.set_trusted_oracle_key(caller, pubkey)),
    {
        ContractStorage::require_admin(env, caller)?;
        env.require_auth(caller);
        env.config.trusted_oracle_key = Some(pubkey);
        Ok(())
    }

    /// The admin proposes the next one.
    pub fn propose_admin(
        env: &mut Ledger,
        caller: Address,
        new_admin: Address,
    ) -> (r: Result<(), EscrowError>)
        ensures
            answers(r, old(env)@, final(env)@, old(env)@.propose_admin(caller, new_admin)),
    {
        ContractStorage::require_admin(env, caller)?;
        env.require_auth(caller);
        env.config.pending_admin = Some(new_admin);
        env.publish(Event::AdminProposed { by: caller, new_admin });
        Ok(())
    }

    /// The admin puts a token on the whitelist.
    pub fn add_approved_token(
        env: &mut Ledger,
        caller: Address,
        token: Address,
    ) -> (r: Result<(), EscrowError>)
        ensures
            answers(r, old(env)@, final(env)@, old(env)@.add_approved_token(caller, token)),
    {
        ContractStorage::require_admin(env, caller)?;
        env.require_auth(caller);
        env.config.approved_tokens.set(token, true);
        env.publish(Event::TokenWhitelistAdded { by: caller, token });
        Ok(())
    }

    /// The admin takes a token off the whitelist.
    pub fn remove_approved_token(
        env: &mut Ledger,
        caller: Address,
        token: Address,
    ) -> (r: Result<(), EscrowError>)
        ensures
            answers(r, old(env)@, final(env)@, old(env)@.remove_approved_token(caller, token)),
    {
        ContractStorage::require_admin(env, caller)?;
        env.require_auth(caller);
        env.config.approved_tokens.remove(token);
        env.publish(Event::TokenWhitelistRemoved { by: caller, token });
        Ok(())
    }

    /// The admin says whether the whitelist holds.
    pub fn set_token_whitelist_enabled(
        env: &mut Ledger,
        caller: Address,
        enabled: bool,
    ) -> (r: Result<(), EscrowError>)
        ensures
            answers(
                r,
                old(env)@,
                final(env)@,
                old(env)@.set_token_whitelist_enabled(caller, enabled),
            ),
    {
        ContractStorage::require_admin(env, caller)?;
        env.require_auth(caller);
        env.config.token_whitelist_enabled = enabled;
        env.publish(Event::TokenWhitelistSet { by: caller, enabled });
        Ok(())
    }

    /// Notes how far a bridged token has been confirmed.
    pub fn update_bridge_confirmation(
        env: &mut Ledger,
        token: Address,
        bridge_protocol: BridgeProtocol,
        confirmations: u32,
        min_confirmations: u32,
    ) -> (r: Result<(), EscrowError>)
        ensures
            answers(
                r,
                old(env)@,
                final(env)@,
                old(env)@.bridge_noted(token, bridge_protocol, confirmations, min_confirmations),
            ),
    {
        ContractStorage::require_initialized(env)?;
        let is_finalized = confirmations >= min_confirmations;
        let updated_at: u64 = env.timestamp;
        env.config.bridge_confirmations.set(
            token,
            BridgeConfirmation {
                token,
                bridge: bridge_protocol,
                confirmations,
                is_finalized,
                updated_at,
            },
        );
        env.publish(Event::BridgeConfirmationUpdated { token, confirmations, is_finalized });
        Ok(())
    }

    fn change_paused(
        env: &mut Ledger,
        caller: Address,
        paused: bool,
    ) -> (r: Result<(), EscrowError>)
        ensures
            answers(r, old(env)@, final(env)@, old(env)@.set_paused(caller, paused)),
    {
        ContractStorage::require_admin(env, caller)?;
        env.require_auth(caller);
        if env.config.paused == paused {
            return Ok(());
        }
        env.config.paused = paused;
        if paused {
            env.publish(Event::ContractPaused { by: caller });
        } else {
            env.publish(Event::ContractUnpaused { by: caller });
        }
        Ok(())
    }

    /// The admin pauses the contract.
    pub fn pause(env: &mut Ledger, caller: Address) -> (r: Result<(), EscrowError>)
        ensures
            answers(r, old(env)@, final(env)@, old(env)@.set_paused(caller, true)),
    {
        Self::change_paused(env, caller, true)
    }

    /// The admin lets the contract run again.
    pub fn unpause(env: &mut Ledger, caller: Address) -> (r: Result<(), EscrowError>)
        ensures
            answers(r, old(env)@, final(env)@, old(env)@.set_paused(caller, false)),
    {
        Self::change_paused(env, caller, false)
    }

    /// The proposed admin takes over.
    pub fn accept_admin(env: &mut Ledger, caller: Address) -> (r: Result<(), EscrowError>)
        ensures
            answers(r, old(env)@, final(env)@, old(env)@.accept_admin(caller)),
    {
        let old_admin = match env.config.admin {
            None => {
                return Err(EscrowError::E2);
            },
            Some(a) => a,
        };
        match env.config.pending_admin {
            None => {
                return Err(EscrowError::E3);
            },
            Some(p) => {
                if caller != p {
                    return Err(EscrowError::E3);
                }
            },
        }
        env.require_auth(caller);
        env.config.admin = Some(caller);
        env.config.pending_admin = None;
        env.publish(Event::AdminChanged { old_admin, new_admin: caller });
        Ok(())
    }

    /// The admin replaces the code; `migration` is what migrating the entries
    /// came to.
    pub fn upgrade(
        env: &mut Ledger,
        caller: Address,
        new_wasm_hash: Hash32,
        migration: Result<(), EscrowError>,
    ) -> (r: Result<u32, EscrowError>)
        ensures
            answers(
                r,
                old(env)@,
                final(env)@,
                old(env)@.upgrade(caller, new_wasm_hash, migration),
            ),
    {
        match env.config.admin {
            None => {
                return Err(EscrowError::E2);
            },
            Some(a) => {
                if caller != a {
                    return Err(EscrowError::E87);
                }
            },
        }
        migration?;
        let now: u64 = env.timestamp;
        let mut v = match env.config.contract_version {
            Some(v) => v,
            None => ContractVersionInfo {
                version: 0,
                deployed_at: now,
                last_upgraded_at: now,
                upgrade_count: 0,
            },
        };
        let old_version: u32 = v.version;
        if old_version == u32::MAX {
            return Err(EscrowError::E20);
        }
        v.version = old_version + 1;
        v.last_upgraded_at = now;
        if v.upgrade_count < u32::MAX {
            v.upgrade_count = v.upgrade_count + 1;
        }
        env.require_auth(caller);
        env.config.contract_version = Some(v);
        env.publish(Event::ContractVersionUpgraded { old_version, new_version: v.version });
        env.ask(Effect::UpdateWasm(new_wasm_hash));
        Ok(v.version)
    }

    /// The admin puts an arbiter on the allowlist.
    pub fn add_to_arbiter_allowlist(env: &mut Ledger, caller: Address, arbiter: Address) -> (r:
        Result<(), EscrowError>)
        ensures
            answers(r, old(env)@, final(env)@, old(env)@.allow_arbiter(caller, arbiter)),
    {
        ContractStorage::require_admin(env, caller)?;
        if env.book.allowlist.has(arbiter) {
            return Err(EscrowError::E91);
        }
        env.require_auth(caller);
        env.book.allowlist.set(arbiter, true);
        Ok(())
    }

    /// The admin takes an arbiter off the allowlist.
    pub fn remove_from_arbiter_allowlist(
        env: &mut Ledger,
        caller: Address,
        arbiter: Address,
    ) -> (r: Result<(), EscrowError>)
        ensures
            answers(r, old(env)@, final(env)@, old(env)@.disallow_arbiter(caller, arbiter)),
    {
        ContractStorage::require_admin(env, caller)?;
        if !env.book.allowlist.has(arbiter) {
            return Err(EscrowError::E92);
        }
        env.require_auth(caller);
        env.book.allowlist.remove(arbiter);
        Ok(())
    }

    /// Checks that a request handed in for its signer has not expired. Nothing
    /// else is done with it so far.
    pub fn execute_meta_transaction(
        env: &Ledger,
        meta_tx: &MetaTransaction,
    ) -> (r: Result<(), EscrowError>)
        ensures
            r == (if meta_tx.deadline < env@.timestamp {
                Err::<(), EscrowError>(EscrowError::E26)
            } else {
                Ok(())
            }),
    {
        if meta_tx.deadline < env.timestamp {
            return Err(EscrowError::E26);
        }
        Ok(())
    }
}

/// Asking for signatures leaves everything else alone.
pub proof fn lemma_all_authed(env: LedgerView, presented: Seq<u64>, k: nat)
    ensures
        env.all_authed(presented, k) == (LedgerView {
            log: env.all_authed(presented, k).log,
            ..env
        }),
    decreases k,
{
    if k > 0 {
        lemma_all_authed(env, presented, (k - 1) as nat);
    }
}

} // verus!
