//! What the admin and its signers decide, and what that changes.
use vstd::prelude::*;

use crate::admin::signers_present;
use crate::errors::EscrowError;
use crate::events::EffectView;
use crate::ledger::{ConfigView, LedgerView, Outcome};
use crate::types::{
    Address, BridgeProtocol, ContractVersionInfo, FeeTier, Hash32, WrappedTokenView,
};

verus! {

/// A request left the configuration as told and everything else but the log alone;
/// only the admin gets that far.
pub open spec fn configures(
    env: LedgerView,
    r: Outcome<()>,
    caller: Address,
    allowed: bool,
    config: ConfigView,
) -> bool {
    &&& r is Ok <==> env.config.admin == Some(caller) && allowed
    &&& r is Ok ==> r->Ok_0.0 == (LedgerView { config, log: r->Ok_0.0.log, ..env })
    &&& env.config.admin is None ==> r == Err::<(LedgerView, ()), EscrowError>(EscrowError::E2)
    &&& env.config.admin is Some && env.config.admin != Some(caller) ==> r == Err::<
        (LedgerView, ()),
        EscrowError,
    >(EscrowError::E4)
}

/// The admin names those that the contract asks or pays; each name stands where it
/// was put.
pub proof fn law_names_kept(env: LedgerView, caller: Address, x: Address, key: Hash32)
    ensures
        configures(
            env,
            env.set_oracle(caller, x),
            caller,
            true,
            (ConfigView { oracle: Some(x), ..env.config }),
        ),
        configures(
            env,
            env.set_fallback_oracle(caller, x),
            caller,
            true,
            (ConfigView { fallback_oracle: Some(x), ..env.config }),
        ),
        configures(
            env,
            env.set_wormhole_bridge(caller, x),
            caller,
            true,
            (ConfigView { wormhole_bridge: Some(x), ..env.config }),
        ),
        configures(
            env,
            env.set_governance_contract(caller, x),
            caller,
            true,
            (ConfigView { governance_contract: Some(x), ..env.config }),
        ),
        configures(
            env,
            env.set_platform_treasury(caller, x),
            caller,
            true,
            (ConfigView { platform_treasury: Some(x), ..env.config }),
        ),
        configures(
            env,
            env.set_trusted_oracle_key(caller, key),
            caller,
            true,
            (ConfigView { trusted_oracle_key: Some(key), ..env.config }),
        ),
        configures(
            env,
            env.propose_admin(caller, x),
            caller,
            true,
            (ConfigView { pending_admin: Some(x), ..env.config }),
        ),
{
}

/// The admin sets limits within their bounds: a price is stale after a day at the
/// latest, high values start above nothing, and an escrow has one to a hundred
/// milestones.
pub proof fn law_limits_kept(
    env: LedgerView,
    caller: Address,
    seconds: u64,
    amount: i128,
    score: u64,
    count: u32,
)
    ensures
        configures(
            env,
            env.set_oracle_stale_threshold(caller, seconds),
            caller,
            1 <= seconds <= 86_400,
            (ConfigView { oracle_stale_threshold: Some(seconds), ..env.config }),
        ),
        configures(
            env,
            env.set_high_value_threshold(caller, amount),
            caller,
            amount >= 1,
            (ConfigView { high_value_threshold: Some(amount), ..env.config }),
        ),
        configures(
            env,
            env.set_min_arbiter_reputation(caller, score),
            caller,
            true,
            (ConfigView { min_arbiter_reputation: Some(score), ..env.config }),
        ),
        configures(
            env,
            env.set_max_milestones(caller, count),
            caller,
            1 <= count <= 100,
            (ConfigView { max_milestones: Some(count), ..env.config }),
        ),
{
}

/// Rates that rise step by step from no negative amount, none over the whole.
pub open spec fn in_order(t: Seq<FeeTier>) -> bool {
    &&& t.len() > 0
    &&& forall|i: int|
        0 <= i < t.len() ==> (#[trigger] t[i]).min_total_amount >= 0 && t[i].fee_bps <= 10_000
    &&& forall|i: int, j: int|
        0 <= i < j < t.len() ==> (#[trigger] t[j]).min_total_amount > (
        #[trigger] t[i]).min_total_amount
}

/// Rates stand as the admin set them, where they can be used; an escrow then costs
/// what they say.
pub proof fn law_tiers_kept(env: LedgerView, caller: Address, tiers: Seq<FeeTier>)
    ensures
        configures(
            env,
            env.set_platform_fee_tiers(caller, tiers),
            caller,
            in_order(tiers),
            (ConfigView { platform_fee_tiers: Some(tiers), ..env.config }),
        ),
{
}

/// The whitelist holds or not, as the admin says. A token that was put on it is on
/// it, one that was taken off is not, and the others stay as they are.
pub proof fn law_whitelist_kept(
    env: LedgerView,
    caller: Address,
    token: Address,
    other: Address,
    enabled: bool,
)
    requires
        other != token,
    ensures
        configures(
            env,
            env.set_token_whitelist_enabled(caller, enabled),
            caller,
            true,
            (ConfigView { token_whitelist_enabled: enabled, ..env.config }),
        ),
        env.config.admin == Some(caller) ==> {
            let put = env.add_approved_token(caller, token)->Ok_0.0.config.approved_tokens;
            let taken = env.remove_approved_token(caller, token)->Ok_0.0.config.approved_tokens;
            let was = env.config.approved_tokens;
            &&& env.add_approved_token(caller, token) is Ok
            &&& env.remove_approved_token(caller, token) is Ok
            &&& put.contains_key(token) && put[token]
            &&& !taken.contains_key(token)
            &&& put.contains_key(other) == was.contains_key(other)
            &&& taken.contains_key(other) == was.contains_key(other)
        },
        env.config.admin != Some(caller) ==> env.add_approved_token(caller, token) is Err
            && env.remove_approved_token(caller, token) is Err,
{
}

/// The same of the arbiters that are allowed; none is put on twice, nor taken off
/// where it is not.
pub proof fn law_arbiters_kept(env: LedgerView, caller: Address, arbiter: Address, other: Address)
    requires
        other != arbiter,
    ensures
        ({
            let put = env.allow_arbiter(caller, arbiter);
            let taken = env.disallow_arbiter(caller, arbiter);
            &&& put is Ok <==> env.config.admin == Some(caller) && !env.is_allowed(arbiter)
            &&& taken is Ok <==> env.config.admin == Some(caller) && env.is_allowed(arbiter)
            &&& put is Ok ==> {
                &&& put->Ok_0.0.is_allowed(arbiter)
                &&& put->Ok_0.0.is_allowed(other) == env.is_allowed(other)
                &&& put->Ok_0.0.config == env.config
            }
            &&& taken is Ok ==> {
                &&& !taken->Ok_0.0.is_allowed(arbiter)
                &&& taken->Ok_0.0.is_allowed(other) == env.is_allowed(other)
                &&& taken->Ok_0.0.config == env.config
            }
        }),
{
}

/// The contract is set up once. Its admin is the treasury; the signers and how many
/// of them it takes are as given, or the admin alone; the first version is one.
pub proof fn law_setup_does(env: LedgerView, admin: Address, signers: Seq<u64>, threshold: u32)
    ensures
        ({
            let one = env.initialize(admin);
            let many = env.initialize_signers(admin, signers, threshold);
            let fresh = |c: ConfigView, s: Seq<u64>, n: u32|
                {
                    &&& c.admin == Some(admin)
                    &&& c.platform_treasury == Some(admin)
                    &&& c.admin_signers == Some(s)
                    &&& c.admin_threshold == Some(n)
                    &&& c.escrow_counter == 0
                    &&& c.contract_version == Some(
                        ContractVersionInfo {
                            version: 1,
                            deployed_at: env.timestamp,
                            last_upgraded_at: env.timestamp,
                            upgrade_count: 0,
                        },
                    )
                };
            &&& one is Ok <==> env.config.admin is None
            &&& many is Ok <==> env.config.admin is None && 1 <= threshold <= signers.len()
            &&& one is Ok ==> fresh(one->Ok_0.0.config, seq![admin.id], 1)
            &&& many is Ok ==> fresh(many->Ok_0.0.config, signers, threshold)
        }),
{
}

/// The admin replaces the signers; it takes one of them at least, and no more than
/// there are.
pub proof fn law_signers_kept(env: LedgerView, caller: Address, signers: Seq<u64>, threshold: u32)
    ensures
        configures(
            env,
            env.set_signers(caller, signers, threshold),
            caller,
            1 <= threshold <= signers.len(),
            (ConfigView {
                admin_signers: Some(signers),
                admin_threshold: Some(threshold),
                ..env.config
            }),
        ),
{
}

/// Those who are counted are those who are both configured and presented, each
/// once.
pub proof fn law_signers_counted(configured: Seq<u64>, presented: Seq<u64>, k: nat)
    requires
        k <= presented.len(),
    ensures
        signers_present(configured, presented, k) == presented.take(k as int).to_set().intersect(
            configured.to_set(),
        ).len(),
    decreases k,
{
    broadcast use vstd::seq_lib::seq_to_set_is_finite;

    let now = presented.take(k as int);
    if k == 0 {
        assert(now.to_set().intersect(configured.to_set()) =~= Set::empty());
    } else {
        law_signers_counted(configured, presented, (k - 1) as nat);
        let before = presented.take(k - 1);
        let x = presented[k - 1];
        assert(now =~= before.push(x));
        assert forall|y: u64| now.contains(y) <==> before.contains(y) || y == x by {
            if before.contains(y) {
                let i = choose|i: int| 0 <= i < before.len() && before[i] == y;
                assert(now[i] == y);
            }
            assert(now[k - 1] == x);
        }
        let a = before.to_set().intersect(configured.to_set());
        let b = now.to_set().intersect(configured.to_set());
        if configured.contains(x) && !before.contains(x) {
            assert(b =~= a.insert(x));
            assert(!a.contains(x));
        } else {
            assert(b =~= a);
        }
    }
}

/// An escrow is frozen, and thawed, where enough different signers of the admins
/// are presented, and not otherwise. Others stay as they are.
#[verifier::rlimit(40)]
pub proof fn law_freezing_does(
    env: LedgerView,
    id: u64,
    other: u64,
    presented: Seq<u64>,
    frozen: bool,
    signers: Seq<u64>,
    threshold: u32,
)
    requires
        other != id,
        env.config.admin is Some,
        env.config.admin_signers == Some(signers),
        env.config.admin_threshold == Some(threshold),
        env.accessed(id) is Ok,
    ensures
        ({
            let r = env.set_frozen(id, presented, frozen);
            let n = presented.to_set().intersect(signers.to_set()).len();
            &&& r is Ok <==> n >= threshold
            &&& r is Ok ==> r->Ok_0.0.is_frozen(id) == frozen
            &&& r is Ok ==> r->Ok_0.0.is_frozen(other) == env.is_frozen(other)
        }),
{
    law_signers_counted(signers, presented, presented.len());
    assert(presented.take(presented.len() as int) =~= presented);
    let seen = env.accessed(id)->Ok_0.0;
    crate::admin::lemma_all_authed(seen, presented, presented.len());
}

/// The admin pauses the contract and lets it run again; the proposed admin, and
/// nobody else, takes over.
pub proof fn law_control_changes(env: LedgerView, caller: Address, paused: bool)
    ensures
        configures(
            env,
            env.set_paused(caller, paused),
            caller,
            true,
            (ConfigView { paused, ..env.config }),
        ),
        env.accept_admin(caller) is Ok <==> env.config.admin is Some && env.config.pending_admin
            == Some(caller),
        env.accept_admin(caller) is Ok ==> env.accept_admin(caller)->Ok_0.0.config == (ConfigView {
            admin: Some(caller),
            pending_admin: None,
            ..env.config
        }),
{
}

/// The admin replaces the code once migration went well: the version goes up by
/// one, as does the count of upgrades, and the new code is installed.
pub proof fn law_upgrade_does(
    env: LedgerView,
    caller: Address,
    code: Hash32,
    migrated: Result<(), EscrowError>,
    v: ContractVersionInfo,
)
    requires
        env.config.contract_version == Some(v),
        v.version < u32::MAX,
        v.upgrade_count < u32::MAX,
    ensures
        ({
            let r = env.upgrade(caller, code, migrated);
            let (post, n) = r->Ok_0;
            &&& r is Ok <==> env.config.admin == Some(caller) && migrated is Ok
            &&& r is Ok ==> {
                &&& n == v.version + 1
                &&& post.config.contract_version is Some
                &&& post.config.contract_version->Some_0.version == v.version + 1
                &&& post.config.contract_version->Some_0.upgrade_count == v.upgrade_count + 1
                &&& post.config.contract_version->Some_0.deployed_at == v.deployed_at
                &&& post.config.contract_version->Some_0.last_upgraded_at == env.timestamp
                &&& post.log.last() == EffectView::UpdateWasm(code)
                &&& post.book == env.book
            }
        }),
{
}

/// A bridged token is registered under its address by the admin. Confirmations are
/// noted as they come; a token is final from the needed number on.
pub proof fn law_bridge_does(
    env: LedgerView,
    caller: Address,
    info: WrappedTokenView,
    token: Address,
    bridge: BridgeProtocol,
    confirmations: u32,
    needed: u32,
)
    ensures
        ({
            let r = env.wrapped_registered(caller, info);
            let tokens = r->Ok_0.0.config.wrapped_tokens;
            let noted = env.bridge_noted(token, bridge, confirmations, needed);
            let c = noted->Ok_0.0.config.bridge_confirmations[token];
            &&& r is Ok <==> env.config.admin == Some(caller)
            &&& r is Ok ==> tokens.contains_key(info.stellar_address)
                && tokens[info.stellar_address] == info
            &&& noted is Ok <==> env.config.admin is Some
            &&& noted is Ok ==> {
                &&& noted->Ok_0.0.config.bridge_confirmations.contains_key(token)
                &&& c.token == token && c.bridge == bridge && c.confirmations == confirmations
                &&& c.is_finalized <==> confirmations >= needed
                &&& c.updated_at == env.timestamp
            }
        }),
{
}

/// A signer's nonces only go up, from one on, and each is good once.
pub proof fn law_nonce_used_once(env: LedgerView, signer: Address, nonce: u64, later: u64)
    ensures
        ({
            let r = env.nonce_used(signer, nonce);
            let post = r->Ok_0.0;
            let last = if env.book.nonces.contains_key(signer) {
                env.book.nonces[signer] as int
            } else {
                0
            };
            &&& r is Ok <==> nonce > last
            &&& r is Ok ==> post.book.nonces.contains_key(signer) && post.book.nonces[signer]
                == nonce
            &&& r is Ok ==> (post.nonce_used(signer, later) is Ok <==> later > nonce)
        }),
{
}

} // verus!
