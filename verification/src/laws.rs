//! What holds across requests.
use vstd::prelude::*;

use crate::batches::{lemma_batch_due_err, lemma_batch_sum_pos, lemma_release_due_err};
use crate::cancellation::{lemma_slash_part, slash_part};
use crate::constants::SLASH_DISPUTE_PERIOD;
use crate::creation::NewEscrow;
use crate::disputes::{lemma_part_fits, rated};
use crate::errors::EscrowError;
use crate::events::EffectView;
use crate::index::{appended, dropped, listed, page, without};
use crate::ledger::{answers, ConfigView, LedgerView, Outcome};
use crate::multisig::{accrued, has_signed, policy_check, signature_weight, weight_sum};
use crate::release::toward_zero;
use crate::rent::{lemma_rent_end_kept, lemma_settled_once};
use crate::storage::{rent_periods, reserve};
use crate::types::{
    Address, ApprovalRecord, EscrowStatus, FeeTier, Hash32, MetaView, MilestoneTemplateView,
    MilestoneView, MultisigView, OracleResolutionPayload, PriceCondition, RecurringInterval,
    ReputationRecord, TemplateView, MS_APPROVED, MS_RELEASED,
};

verus! {

/// A refused request leaves everything as it was.
pub proof fn law_refusal_changes_nothing<T>(
    r: Result<T, EscrowError>,
    before: LedgerView,
    after: LedgerView,
    want: Outcome<T>,
)
    requires
        answers(r, before, after, want),
        r is Err,
    ensures
        after == before,
{
}

/// A request is refused, and where nothing else comes before, with a certain
/// error.
pub open spec fn refused_with<T>(o: Outcome<T>, e: EscrowError, sure: bool) -> bool {
    &&& o is Err
    &&& sure ==> o == Err::<(LedgerView, T), EscrowError>(e)
}

/// While the contract is paused, no escrow and no template is created.
#[verifier::rlimit(40)]
pub proof fn law_paused_creates_nothing(
    env: LedgerView,
    caller: Address,
    other: Address,
    a: NewEscrow,
    token_id: u64,
    nft_balance: i128,
    payment: i128,
    interval: RecurringInterval,
    start: u64,
    end: Option<u64>,
    count: Option<u32>,
    hash: Hash32,
    template_id: u64,
    name: Seq<u8>,
    milestones: Seq<MilestoneTemplateView>,
)
    requires
        env.config.paused,
    ensures
        refused_with(env.created(a), EscrowError::E31, env.config.admin is Some),
        refused_with(
            env.nft_gated(other, token_id, nft_balance, a),
            EscrowError::E31,
            env.config.admin is Some && nft_balance != 0,
        ),
        refused_with(
            env.recurring_created(caller, other, other, payment, interval, start, end, count, hash),
            EscrowError::E31,
            env.config.admin is Some,
        ),
        refused_with(
            env.template_created(caller, name, milestones),
            EscrowError::E31,
            env.config.admin is Some,
        ),
        refused_with(
            env.from_template(caller, template_id, a),
            EscrowError::E31,
            env.config.admin is Some,
        ),
{
}

/// While the contract is paused, no milestone is added, worked on, approved or
/// released.
#[verifier::rlimit(40)]
pub proof fn law_paused_milestones_stay(
    env: LedgerView,
    caller: Address,
    id: u64,
    mid: u32,
    title: Seq<u8>,
    hash: Hash32,
    amount: i128,
    condition: PriceCondition,
    titles: Seq<Seq<u8>>,
    hashes: Seq<Hash32>,
    amounts: Seq<i128>,
    ids: Seq<u32>,
)
    requires
        env.config.paused,
    ensures
        refused_with(
            env.add_milestone(caller, id, title, hash, amount),
            EscrowError::E31,
            env.config.admin is Some,
        ),
        refused_with(
            env.add_price_milestone(caller, id, title, hash, amount, condition),
            EscrowError::E31,
            env.config.admin is Some,
        ),
        refused_with(
            env.batch_add(caller, id, titles, hashes, amounts),
            EscrowError::E31,
            env.config.admin is Some,
        ),
        refused_with(
            env.retitle(caller, id, mid, title),
            EscrowError::E31,
            env.config.admin is Some,
        ),
        refused_with(env.submit(caller, id, mid), EscrowError::E31, env.config.admin is Some),
        refused_with(env.reject(caller, id, mid), EscrowError::E31, env.config.admin is Some),
        refused_with(
            env.reject_with_reason(caller, id, mid, hash),
            EscrowError::E31,
            env.config.admin is Some,
        ),
        refused_with(env.approve(caller, id, mid), EscrowError::E31, env.config.admin is Some),
        refused_with(
            env.batch_approve(caller, id, ids),
            EscrowError::E31,
            env.config.admin is Some,
        ),
        refused_with(
            env.oracle_release(caller, id, mid),
            EscrowError::E31,
            env.config.admin is Some,
        ),
        refused_with(
            env.batch_release(caller, id, ids),
            EscrowError::E31,
            env.config.admin is Some,
        ),
        refused_with(env.release(caller, id, mid), EscrowError::E31, env.config.admin is Some),
        refused_with(
            env.timed_release(caller, id, mid),
            EscrowError::E31,
            env.config.admin is Some,
        ),
        refused_with(env.process_recurring(id), EscrowError::E31, env.config.admin is Some),
{
}

/// While the contract is paused, no escrow is cancelled, split or disputed, and
/// nothing of that kind is decided.
#[verifier::rlimit(40)]
pub proof fn law_paused_ends_nothing(
    env: LedgerView,
    caller: Address,
    id: u64,
    mid: Option<u32>,
    amount: i128,
    rest: i128,
    hash: Hash32,
    text: Seq<u8>,
    p: OracleResolutionPayload,
    grace: u64,
    proposal_id: u64,
    upheld: bool,
)
    requires
        env.config.paused,
    ensures
        refused_with(env.cancel(caller, id), EscrowError::E31, env.config.admin is Some),
        refused_with(env.cancel_rest(caller, id), EscrowError::E31, env.config.admin is Some),
        refused_with(env.cancel_schedule(caller, id), EscrowError::E31, env.config.admin is Some),
        refused_with(
            env.split(caller, id, amount, hash),
            EscrowError::E31,
            env.config.admin is Some,
        ),
        refused_with(
            env.ask_cancellation(caller, id, text),
            EscrowError::E31,
            env.config.admin is Some,
        ),
        refused_with(
            env.agree_cancellation(caller, id),
            EscrowError::E31,
            env.config.admin is Some,
        ),
        refused_with(
            env.object_cancellation(caller, id),
            EscrowError::E31,
            env.config.admin is Some,
        ),
        refused_with(env.execute_cancellation(id), EscrowError::E31, env.config.admin is Some),
        refused_with(env.finalize(id), EscrowError::E31, env.config.admin is Some),
        refused_with(env.object_slash(caller, id), EscrowError::E31, env.config.admin is Some),
        refused_with(
            env.resolve_slash(caller, id, upheld),
            EscrowError::E31,
            env.config.admin is Some,
        ),
        refused_with(env.raise(caller, id, mid), EscrowError::E31, env.config.admin is Some),
        refused_with(
            env.add_evidence(caller, id, hash, text),
            EscrowError::E31,
            env.config.admin is Some,
        ),
        refused_with(env.claim_timeout(caller, id), EscrowError::E31, env.config.admin is Some),
        refused_with(
            env.resolve(caller, id, amount, rest),
            EscrowError::E31,
            env.config.admin is Some,
        ),
        refused_with(env.oracle_resolve(id, p, grace), EscrowError::E31, env.config.admin is Some),
        refused_with(
            env.escalate(caller, id, proposal_id),
            EscrowError::E31,
            env.config.admin is Some,
        ),
{
}

/// While the contract is paused, the parties, the terms and the prepaid rent of an
/// escrow stay as they are, but for the arbiter's part, which the admin may still
/// set, and rent that is due.
#[verifier::rlimit(40)]
pub proof fn law_paused_terms_stay(
    env: LedgerView,
    caller: Address,
    id: u64,
    other: Address,
    arbiter: Option<Address>,
    time: u64,
    bps: u32,
    amount: i128,
    least: i128,
)
    requires
        env.config.paused,
    ensures
        refused_with(env.transfer_client(id, other), EscrowError::E31, env.config.admin is Some),
        refused_with(env.replace_arbiter(id, arbiter), EscrowError::E31, env.config.admin is Some),
        refused_with(env.accept(caller, id), EscrowError::E31, env.config.admin is Some),
        refused_with(
            env.swap(caller, id, caller, other, amount, least),
            EscrowError::E31,
            env.config.admin is Some,
        ),
        refused_with(
            env.set_slippage(caller, id, bps),
            EscrowError::E31,
            env.config.admin is Some,
        ),
        refused_with(
            env.start_timelock(caller, id, time),
            EscrowError::E31,
            env.config.admin is Some,
        ),
        refused_with(
            env.extend_lock(caller, id, time),
            EscrowError::E31,
            env.config.admin is Some,
        ),
        refused_with(
            env.set_release_time(caller, id, time),
            EscrowError::E31,
            env.config.admin is Some,
        ),
        refused_with(env.pause_schedule(caller, id), EscrowError::E31, env.config.admin is Some),
        refused_with(env.resume_schedule(caller, id), EscrowError::E31, env.config.admin is Some),
        refused_with(env.top_up(caller, id, time), EscrowError::E31, env.config.admin is Some),
        refused_with(
            env.withdraw_rent(caller, id, amount),
            EscrowError::E31,
            env.config.admin is Some,
        ),
{
}

/// A paused contract can still be looked at: an escrow is found, or not found,
/// as if it were not paused.
pub proof fn law_pause_leaves_views(env: LedgerView, id: u64, paused: bool)
    ensures
        ({
            let other = env.with_config(ConfigView { paused, ..env.config });
            match env.accessed(id) {
                Err(e) => other.accessed(id) == Err::<(LedgerView, MetaView), EscrowError>(e),
                Ok((post, m)) => other.accessed(id) is Ok && other.accessed(id)->Ok_0.1 == m
                    && other.accessed(id)->Ok_0.0.book == post.book,
            }
        }),
{
    let other = env.with_config(ConfigView { paused, ..env.config });
    if env.has_meta(id) {
        let m = env.meta(id);
        assert(other.rent_per_period(m) == env.rent_per_period(m));
        match env.rent_collected(m) {
            Err(_) => {},
            Ok((post, (m2, _))) => {
                assert(other.rent_end(m2) == env.rent_end(m2));
            },
        }
    }
}

/// A frozen escrow refuses milestones, work, approvals, releases, cancellations,
/// disputes and their decisions, timelocks and swaps. What a price releases, what
/// is approved or released several at once, and a signed decision do not ask
/// whether it is frozen.
#[verifier::rlimit(40)]
pub proof fn law_frozen_refuses(
    env: LedgerView,
    caller: Address,
    other: Address,
    id: u64,
    mid: u32,
    disputed: Option<u32>,
    amount: i128,
    rest: i128,
    time: u64,
    hash: Hash32,
    title: Seq<u8>,
    titles: Seq<Seq<u8>>,
    hashes: Seq<Hash32>,
    amounts: Seq<i128>,
    condition: PriceCondition,
)
    requires
        env.is_frozen(id),
    ensures
        refused_with(
            env.add_milestone(caller, id, title, hash, amount),
            EscrowError::E61,
            !env.config.paused && env.config.admin is Some,
        ),
        refused_with(
            env.add_price_milestone(caller, id, title, hash, amount, condition),
            EscrowError::E61,
            !env.config.paused && env.config.admin is Some,
        ),
        refused_with(
            env.batch_add(caller, id, titles, hashes, amounts),
            EscrowError::E61,
            !env.config.paused && env.config.admin is Some,
        ),
        refused_with(
            env.submit(caller, id, mid),
            EscrowError::E61,
            !env.config.paused && env.config.admin is Some,
        ),
        refused_with(
            env.reject(caller, id, mid),
            EscrowError::E61,
            !env.config.paused && env.config.admin is Some,
        ),
        refused_with(
            env.approve(caller, id, mid),
            EscrowError::E61,
            !env.config.paused && env.config.admin is Some,
        ),
        refused_with(
            env.release(caller, id, mid),
            EscrowError::E61,
            !env.config.paused && env.config.admin is Some,
        ),
        refused_with(
            env.timed_release(caller, id, mid),
            EscrowError::E61,
            !env.config.paused && env.config.admin is Some,
        ),
        refused_with(
            env.cancel(caller, id),
            EscrowError::E61,
            !env.config.paused && env.config.admin is Some,
        ),
        refused_with(
            env.cancel_rest(caller, id),
            EscrowError::E61,
            !env.config.paused && env.config.admin is Some,
        ),
        refused_with(
            env.raise(caller, id, disputed),
            EscrowError::E61,
            !env.config.paused && env.config.admin is Some,
        ),
        refused_with(
            env.claim_timeout(caller, id),
            EscrowError::E61,
            !env.config.paused && env.config.admin is Some,
        ),
        refused_with(
            env.resolve(caller, id, amount, rest),
            EscrowError::E61,
            !env.config.paused && env.config.admin is Some,
        ),
        refused_with(
            env.start_timelock(caller, id, time),
            EscrowError::E61,
            !env.config.paused && env.config.admin is Some,
        ),
        refused_with(
            env.set_release_time(caller, id, time),
            EscrowError::E61,
            !env.config.paused && env.config.admin is Some,
        ),
        refused_with(
            env.swap(caller, id, caller, other, amount, rest),
            EscrowError::E61,
            !env.config.paused && env.config.admin is Some,
        ),
{
}

impl LedgerView {
    /// Nothing that is looked at before the guard refuses a request.
    pub open spec fn reaches_guard(self, id: u64) -> bool {
        &&& !self.config.paused
        &&& !self.is_frozen(id)
        &&& self.config.admin is Some
    }
}

/// While the host pays out for one guarded request, every other one is refused.
#[verifier::rlimit(40)]
pub proof fn law_guard_refuses(
    env: LedgerView,
    caller: Address,
    id: u64,
    mid: u32,
    ids: Seq<u32>,
    amount: i128,
    rest: i128,
    p: OracleResolutionPayload,
    grace: u64,
    upheld: bool,
)
    requires
        env.config.reentrancy_lock,
    ensures
        refused_with(env.approve(caller, id, mid), EscrowError::E22, env.reaches_guard(id)),
        refused_with(env.oracle_release(caller, id, mid), EscrowError::E22, env.reaches_guard(id)),
        refused_with(
            env.batch_approve(caller, id, ids),
            EscrowError::E22,
            env.reaches_guard(id) && ids.len() > 0,
        ),
        refused_with(env.batch_release(caller, id, ids), EscrowError::E22, env.reaches_guard(id)),
        refused_with(env.release(caller, id, mid), EscrowError::E22, env.reaches_guard(id)),
        refused_with(env.timed_release(caller, id, mid), EscrowError::E22, env.reaches_guard(id)),
        refused_with(env.cancel(caller, id), EscrowError::E22, env.reaches_guard(id)),
        refused_with(env.cancel_rest(caller, id), EscrowError::E22, env.reaches_guard(id)),
        refused_with(env.cancel_schedule(caller, id), EscrowError::E22, env.reaches_guard(id)),
        refused_with(env.claim_timeout(caller, id), EscrowError::E22, env.reaches_guard(id)),
        refused_with(
            env.resolve(caller, id, amount, rest),
            EscrowError::E22,
            env.reaches_guard(id),
        ),
        refused_with(env.oracle_resolve(id, p, grace), EscrowError::E22, env.reaches_guard(id)),
        refused_with(env.execute_cancellation(id), EscrowError::E22, env.reaches_guard(id)),
        refused_with(env.finalize(id), EscrowError::E22, env.reaches_guard(id)),
        refused_with(
            env.resolve_slash(caller, id, upheld),
            EscrowError::E22,
            env.reaches_guard(id),
        ),
        refused_with(
            env.withdraw_rent(caller, id, amount),
            EscrowError::E22,
            env.reaches_guard(id),
        ),
{
}

/// Only the first look at an escrow in a ledger collects rent: the next one
/// finds the same header and changes nothing.
pub proof fn law_rent_collected_once(env: LedgerView, id: u64)
    requires
        env.accessed(id) is Ok,
        env.meta(id).escrow_id == id,
    ensures
        ({
            let (post, m) = env.accessed(id)->Ok_0;
            post.accessed(id) == Ok::<(LedgerView, MetaView), EscrowError>((post, m))
        }),
{
    let (post, m) = env.accessed(id)->Ok_0;
    lemma_settled_once(env, env.meta(id));
    assert(post.meta(id) == m);
    assert(post.saved_meta(m).book.metas =~= post.book.metas);
}

/// Rent is only charged for whole periods, an escrow pays for each of them once,
/// and collecting it does not change when the rent runs out.
pub proof fn law_rent_by_whole_periods(env: LedgerView, m: MetaView)
    requires
        m.rent_balance >= 0,
        env.settled(m) is Ok,
    ensures
        ({
            let (post, (m2, amount)) = env.settled(m)->Ok_0;
            let elapsed = rent_periods(env.timestamp, m.last_rent_collection_at);
            &&& amount == env.rent_per_period(m) * elapsed
            &&& m2.rent_balance + amount == m.rent_balance
            &&& m2.rent_balance >= 0
            &&& m2.last_rent_collection_at == m.last_rent_collection_at + elapsed * 86_400
            &&& env.rent_end(m2) == env.rent_end(m)
            &&& m2 == (MetaView {
                rent_balance: m2.rent_balance,
                last_rent_collection_at: m2.last_rent_collection_at,
                ..m
            })
        }),
{
    let elapsed = rent_periods(env.timestamp, m.last_rent_collection_at);
    let per = env.rent_per_period(m);
    lemma_rent_end_kept(env, m, elapsed);
    if elapsed > 0 {
        let q = m.rent_balance as int / per;
        vstd::arithmetic::div_mod::lemma_fundamental_div_mod(m.rent_balance as int, per);
        assert(m.rent_balance >= per * elapsed) by (nonlinear_arith)
            requires
                m.rent_balance as int == per * q + m.rent_balance as int % per,
                0 <= m.rent_balance as int % per,
                q >= elapsed,
                per >= 1,
        ;
        assert(elapsed * 86_400 <= env.timestamp - m.last_rent_collection_at);
    } else {
        assert(per * 0 == 0);
    }
}

/// Prepaid rent never goes below zero, whoever collects it.
pub proof fn law_rent_not_negative(env: LedgerView, m: MetaView)
    requires
        m.rent_balance >= 0,
        env.rent_collected(m) is Ok,
    ensures
        ({
            let (post, (m2, amount)) = env.rent_collected(m)->Ok_0;
            0 <= amount <= m.rent_balance && m2.rent_balance == m.rent_balance - amount
        }),
{
    lemma_rent_end_kept(env, m, rent_periods(env.timestamp, m.last_rent_collection_at));
}

/// An escrow can be looked at exactly until its prepaid rent runs out.
pub proof fn law_rent_runs_out(env: LedgerView, m: MetaView)
    requires
        m.rent_balance >= 0,
        m.last_rent_collection_at <= env.timestamp,
    ensures
        env.rent_expired(m) <==> env.timestamp >= env.rent_end(m),
{
    let per = env.rent_per_period(m);
    let covered = m.rent_balance as int / per;
    vstd::arithmetic::div_mod::lemma_div_pos_is_pos(m.rent_balance as int, per);
    let d = env.timestamp - m.last_rent_collection_at;
    assert(d / 86_400 > covered <==> d >= (covered + 1) * 86_400);
}

/// Escrows are numbered one after the other, and what was created is found under
/// its number.
pub proof fn law_created_is_found(env: LedgerView, a: NewEscrow)
    requires
        env.created(a) is Ok,
        env.config.escrow_counter < u64::MAX,
    ensures
        ({
            let (post, id) = env.created(a)->Ok_0;
            &&& id == env.config.escrow_counter
            &&& post.config.escrow_counter == id + 1
            &&& post.accessed(id) == Ok::<(LedgerView, MetaView), EscrowError>(
                (post, env.new_meta(a, env.policy(a)->Ok_0, reserve(1))),
            )
        }),
{
    let (post, id) = env.created(a)->Ok_0;
    let m = env.new_meta(a, env.policy(a)->Ok_0, reserve(1));
    assert(post.meta(id) == m);
    assert(post.saved_meta(m).book.metas =~= post.book.metas);
}

/// The parties of an escrow are different people, and stay so.
pub open spec fn distinct_parties(m: MetaView) -> bool {
    m.client != m.freelancer && m.arbiter != Some(m.client) && m.arbiter != Some(m.freelancer)
}

/// Nobody contracts with themselves: the client, the freelancer and the arbiter
/// of a new escrow differ, and no change of a role makes two of them the same.
#[verifier::rlimit(40)]
pub proof fn law_parties_differ(
    env: LedgerView,
    a: NewEscrow,
    id: u64,
    new_client: Address,
    arbiter: Option<Address>,
)
    ensures
        env.created(a) is Ok ==> distinct_parties(
            env.created(a)->Ok_0.0.meta(env.config.escrow_counter),
        ),
        env.accessed(id) is Ok && distinct_parties(env.accessed(id)->Ok_0.1) && env.accessed(
            id,
        )->Ok_0.1.escrow_id == id ==> {
            &&& env.transfer_client(id, new_client) is Ok ==> distinct_parties(
                env.transfer_client(id, new_client)->Ok_0.0.meta(id),
            )
            &&& env.replace_arbiter(id, arbiter) is Ok ==> distinct_parties(
                env.replace_arbiter(id, arbiter)->Ok_0.0.meta(id),
            )
        },
{
}

/// The milestones of an escrow never claim more than its total amount, nor more
/// than what was left of it in splits.
#[verifier::rlimit(40)]
pub proof fn law_milestones_within_total(
    env: LedgerView,
    caller: Address,
    id: u64,
    title: Seq<u8>,
    hash: Hash32,
    amount: i128,
    condition: PriceCondition,
    titles: Seq<Seq<u8>>,
    hashes: Seq<Hash32>,
    amounts: Seq<i128>,
)
    requires
        env.has_meta(id),
        env.meta(id).escrow_id == id,
    ensures
        env.add_milestone(caller, id, title, hash, amount) is Ok ==> {
            let m = env.add_milestone(caller, id, title, hash, amount)->Ok_0.0.meta(id);
            m.allocated_amount <= m.total_amount && m.allocated_amount <= m.allotted_amount
        },
        env.add_price_milestone(caller, id, title, hash, amount, condition) is Ok ==> {
            let m = env.add_price_milestone(
                caller,
                id,
                title,
                hash,
                amount,
                condition,
            )->Ok_0.0.meta(id);
            m.allocated_amount <= m.total_amount && m.allocated_amount <= m.allotted_amount
        },
        env.batch_add(caller, id, titles, hashes, amounts) is Ok ==> {
            let m = env.batch_add(caller, id, titles, hashes, amounts)->Ok_0.0.meta(id);
            &&& m.allocated_amount <= m.total_amount
            &&& m.allocated_amount <= m.allotted_amount
            &&& m.milestone_count <= env.milestone_cap()
        },
{
    lemma_batch_sum_pos(titles, amounts, titles.len());
}

/// A milestone that was paid is not paid again: whoever tries to approve or to
/// release it, alone or with others, is refused.
#[verifier::rlimit(40)]
pub proof fn law_no_double_payment(
    env: LedgerView,
    caller: Address,
    id: u64,
    mid: u32,
    ids: Seq<u32>,
)
    requires
        env.has_milestone(id, mid),
        env.milestone(id, mid).status == MS_RELEASED,
    ensures
        env.approve(caller, id, mid) is Err,
        env.release(caller, id, mid) is Err,
        env.timed_release(caller, id, mid) is Err,
        env.oracle_release(caller, id, mid) is Err,
        ids.contains(mid) ==> env.batch_approve(caller, id, ids) is Err,
        ids.contains(mid) ==> env.batch_release(caller, id, ids) is Err,
{
    let base = env.authed(caller);
    if ids.contains(mid) && base.accessed(id) is Ok {
        let k = ids.index_of(mid) as nat;
        let (seen, m) = base.accessed(id)->Ok_0;
        if seen.unlocked(id, m.lock_time) is Ok {
            let open = seen.unlocked(id, m.lock_time)->Ok_0.0;
            let over = open.timelock_seen(id, m.timelock);
            assert(over.batch_due(caller, id, m, ids, k + 1) is Err);
            lemma_batch_due_err(over, caller, id, m, ids, k + 1, ids.len());
            assert(open.release_due(id, ids, k + 1) is Err);
            lemma_release_due_err(open, id, ids, k + 1, ids.len());
        }
    }
}

/// After a milestone was approved and paid it counts as paid.
pub proof fn law_approved_milestone_is_settled(
    env: LedgerView,
    caller: Address,
    id: u64,
    mid: u32,
    m: MetaView,
    ms: MilestoneView,
)
    requires
        env.approval_done(caller, id, mid, m, ms) is Ok,
        env.rent_ok(id),
        ms.id == mid,
    ensures
        env.approval_done(caller, id, mid, m, ms)->Ok_0.0.has_milestone(id, mid),
        env.approval_done(caller, id, mid, m, ms)->Ok_0.0.milestone(id, mid).status == (
        if env.timelock_over(id, m.timelock) is Ok {
            MS_RELEASED
        } else {
            MS_APPROVED
        }),
{
    let seen = env.timelock_seen(id, m.timelock);
    let over = env.timelock_over(id, m.timelock) is Ok;
    let paid = if over {
        seen.paid(m.token, m.freelancer, ms.amount).told(
            crate::events::Event::FundsReleased {
                escrow_id: id,
                to: m.freelancer,
                amount: ms.amount,
            },
        )
    } else {
        seen
    };
    let ms2 = MilestoneView {
        status: if over {
            MS_RELEASED
        } else {
            MS_APPROVED
        },
        resolved_at: Some(env.timestamp),
        ..ms
    };
    crate::release::lemma_dependents_told(paid.saved_milestone(id, ms2), id, mid);
}

/// Pausing twice is pausing once, and so is unpausing; unpausing undoes pausing.
pub proof fn law_pause_twice(env: LedgerView, caller: Address)
    requires
        env.set_paused(caller, true) is Ok,
    ensures
        ({
            let one = env.set_paused(caller, true)->Ok_0.0;
            &&& one.config.paused
            &&& one.set_paused(caller, true) is Ok
            &&& one.set_paused(caller, true)->Ok_0.0.config == one.config
            &&& one.set_paused(caller, true)->Ok_0.0.log == one.log.push(
                EffectView::RequireAuth(caller),
            )
            &&& !env.config.paused ==> one.set_paused(caller, false)->Ok_0.0.config == env.config
        }),
        ({
            let one = env.set_paused(caller, false)->Ok_0.0;
            &&& !one.config.paused
            &&& one.set_paused(caller, false) is Ok
            &&& one.set_paused(caller, false)->Ok_0.0.config == one.config
        }),
{
}

/// The admin's role is handed on in two steps: the proposal alone changes
/// nothing about who the admin is, only who was proposed can accept, and only
/// once.
pub proof fn law_admin_in_two_steps(
    env: LedgerView,
    caller: Address,
    next: Address,
    stranger: Address,
)
    requires
        env.admin_check(caller) is Ok,
        stranger != next,
    ensures
        ({
            let proposed = env.by_admin_told(
                caller,
                ConfigView { pending_admin: Some(next), ..env.config },
                crate::events::Event::AdminProposed { by: caller, new_admin: next },
            )->Ok_0.0;
            let taken = proposed.accept_admin(next);
            &&& proposed.config.admin == env.config.admin
            &&& proposed.accept_admin(stranger) == Err::<(LedgerView, ()), EscrowError>(
                EscrowError::E3,
            )
            &&& taken is Ok
            &&& taken->Ok_0.0.config.admin == Some(next)
            &&& taken->Ok_0.0.accept_admin(next) == Err::<(LedgerView, ()), EscrowError>(
                EscrowError::E3,
            )
        }),
{
}

/// A contract is set up once.
pub proof fn law_initialized_once(
    env: LedgerView,
    admin: Address,
    again: Address,
    signers: Seq<u64>,
    threshold: u32,
)
    requires
        env.initialize(admin) is Ok,
    ensures
        env.initialize(admin)->Ok_0.0.initialize(again) == Err::<(LedgerView, ()), EscrowError>(
            EscrowError::E1,
        ),
        env.initialize(admin)->Ok_0.0.initialize_signers(again, signers, threshold) is Err,
{
}

/// A nonce that was used is never accepted again, nor is any below it.
pub proof fn law_nonces_rise(env: LedgerView, signer: Address, used: u64, nonce: u64)
    requires
        env.nonce_used(signer, used) is Ok,
    ensures
        env.nonce_used(signer, used)->Ok_0.0.nonce_used(signer, nonce) is Ok <==> nonce > used,
{
}

/// A policy that passes the check can be met: all approvers together reach the
/// threshold.
pub proof fn law_policy_can_be_met(c: MultisigView)
    requires
        policy_check(c) is Ok,
    ensures
        c.threshold <= weight_sum(c.weights),
        c.approvers.len() > 0,
{
    if c.approvers.len() == 0 {
        assert(weight_sum(c.weights) == 0);
    }
}

/// A policy that takes several signers is met by none of them alone.
pub proof fn law_policy_needs_several(c: MultisigView, m: MetaView, who: Address, at: u64)
    requires
        policy_check(c) == Ok::<bool, EscrowError>(true),
        m.buyer_signers == c.approvers,
        m.multisig_weights == c.weights,
        m.multisig_threshold == c.threshold,
    ensures
        accrued(m, seq![ApprovalRecord { signer: who, approved_at: at }]) < m.multisig_threshold,
{
    let a = seq![ApprovalRecord { signer: who, approved_at: at }];
    assert(a.drop_last() =~= Seq::<ApprovalRecord>::empty());
    assert(accrued(m, a.drop_last()) == 0);
    m.buyer_signers.index_of_first_ensures(who.id);
}

/// Nobody signs a milestone twice.
pub proof fn law_no_second_signature(env: LedgerView, caller: Address, id: u64, mid: u32)
    requires
        env.has_milestone(id, mid),
        has_signed(env.milestone(id, mid).approvals, caller),
        env.has_meta(id),
        env.meta(id).multisig_threshold > 0,
    ensures
        env.approve(caller, id, mid) is Err,
{
}

/// An escrow that needs several approvers is not approved by a single signature:
/// the first one only records it, and pays nothing.
pub proof fn law_first_signature_pays_nothing(env: LedgerView, caller: Address, id: u64, mid: u32)
    requires
        env.approve(caller, id, mid) is Ok,
        env.has_meta(id),
        env.meta(id).escrow_id == id,
        env.milestone(id, mid).id == mid,
        env.milestone(id, mid).approvals.len() == 0,
        env.meta(id).multisig_threshold > signature_weight(env.meta(id), caller),
    ensures
        env.approve(caller, id, mid)->Ok_0.0.meta(id).remaining_balance == env.meta(
            id,
        ).remaining_balance,
        env.approve(caller, id, mid)->Ok_0.0.milestone(id, mid).status == env.milestone(
            id,
            mid,
        ).status,
{
    let (seen, m) = env.authed(caller).accessed(id)->Ok_0;
    let ms = env.milestone(id, mid);
    let x = ApprovalRecord { signer: caller, approved_at: env.timestamp };
    crate::multisig::lemma_accrued_push(m, ms.approvals, x);
    assert(accrued(m, ms.approvals) == 0);
    assert(signature_weight(m, caller) == signature_weight(env.meta(id), caller));
}

/// What a cancelled escrow pays adds up to what it had left.
#[verifier::rlimit(40)]
pub proof fn law_cancel_pays_all(env: LedgerView, caller: Address, id: u64)
    requires
        env.cancel(caller, id) is Ok,
    ensures
        ({
            let (seen, m) = env.authed(caller).accessed(id)->Ok_0;
            let approved = seen.approved_due(id, m.milestone_count as nat)->Ok_0;
            let fee = seen.cancel_fee(id, m)->Ok_0;
            let refund = m.remaining_balance - fee - approved;
            &&& refund >= 0
            &&& fee + approved + refund == m.remaining_balance
            &&& seen.cancel_paid(m, fee, approved, refund as i128) is Ok
        }),
{
}

/// An undecided dispute is shared evenly: the parts add up to what is left and
/// differ by at most one.
pub proof fn law_timeout_shares_evenly(balance: i128)
    requires
        balance >= 0,
    ensures
        ({
            let client = toward_zero(balance as int, 2);
            let freelancer = balance - client;
            client + freelancer == balance && 0 <= freelancer - client <= 1
        }),
{
}

/// A signed decision gives each party a part that is not negative, and the parts
/// add up to what is left.
pub proof fn law_oracle_shares_all(m: MetaView, p: OracleResolutionPayload)
    requires
        m.remaining_balance >= 0,
        p.client_bps + p.freelancer_bps == 10_000,
    ensures
        ({
            let (client, freelancer) = LedgerView::oracle_split(m, p);
            client >= 0 && freelancer >= 0 && client + freelancer == m.remaining_balance
        }),
{
    lemma_part_fits(m.remaining_balance as int, p.client_bps as int);
}

/// A cancellation holds a tenth, rounded down, against who asked for it; that
/// and what is paid back add up to what was left.
pub proof fn law_slash_and_rest(balance: i128)
    requires
        balance >= 0,
    ensures
        slash_part(balance as int) == balance as int / 10,
        0 <= slash_part(balance as int) <= balance,
        slash_part(balance as int) + (balance - slash_part(balance as int)) == balance,
{
    lemma_slash_part(balance as int);
}

/// The children of a split share the unallocated amount, each with something.
#[verifier::rlimit(40)]
pub proof fn law_split_shares_unallocated(
    env: LedgerView,
    caller: Address,
    id: u64,
    amount: i128,
    hash: Hash32,
)
    requires
        env.split(caller, id, amount, hash) is Ok,
        env.config.escrow_counter < u64::MAX - 1,
        env.has_meta(id),
        i128::MIN <= env.meta(id).remaining_balance - env.meta(id).allocated_amount <= i128::MAX,
    ensures
        ({
            let (post, (one, two)) = env.split(caller, id, amount, hash)->Ok_0;
            let a = post.meta(one).total_amount;
            let b = post.meta(two).total_amount;
            &&& two == one + 1
            &&& a > 0 && b > 0
            &&& a + b == env.meta(id).remaining_balance - env.meta(id).allocated_amount
            &&& a == post.meta(one).remaining_balance
            &&& b == post.meta(two).remaining_balance
            &&& post.meta(one).client == post.meta(two).client
            &&& post.meta(one).freelancer == post.meta(two).freelancer
        }),
{
}

/// A dispute cannot be decided while it is cooling down.
pub proof fn law_cooldown_holds(
    env: LedgerView,
    caller: Address,
    id: u64,
    client_amount: i128,
    freelancer_amount: i128,
)
    requires
        env.has_meta(id),
        env.meta(id).dispute_started_ledger is Some,
        env.sequence < env.meta(id).dispute_started_ledger->Some_0 + 100,
    ensures
        env.resolve(caller, id, client_amount, freelancer_amount) is Err,
{
}

/// What a decided dispute pays the parties is exactly what was left.
#[verifier::rlimit(40)]
pub proof fn law_resolution_pays_all(
    env: LedgerView,
    caller: Address,
    id: u64,
    client_amount: i128,
    freelancer_amount: i128,
)
    requires
        env.resolve(caller, id, client_amount, freelancer_amount) is Ok,
        env.has_meta(id),
        env.meta(id).escrow_id == id,
    ensures
        client_amount + freelancer_amount == env.meta(id).remaining_balance,
        env.resolve(caller, id, client_amount, freelancer_amount)->Ok_0.0.meta(
            id,
        ).remaining_balance == 0,
        env.resolve(caller, id, client_amount, freelancer_amount)->Ok_0.0.meta(id).status
            == EscrowStatus::Completed,
{
}

/// A completed escrow adds between ten and twenty points, as far as there is room
/// for them; a dispute takes five, as far as there are any.
pub proof fn law_rating(r: ReputationRecord, volume: i128, now: u64)
    ensures
        volume > -1_000 && r.total_score <= u64::MAX - 20 ==> r.total_score + 10 <= rated(
            r,
            true,
            false,
            volume,
            now,
        ).total_score <= r.total_score + 20,
        rated(r, false, true, volume, now).total_score == (if r.total_score < 5 {
            0
        } else {
            r.total_score - 5
        }),
{
}

/// An id that moves to another status is in the new list and, unless the two are
/// the same, no longer in the old one.
pub proof fn law_status_lists(env: LedgerView, id: u64, from: EscrowStatus, to: EscrowStatus)
    requires
        from != to,
    ensures
        listed(env.moved(id, from, to).book.by_status, to).contains(id),
        !listed(env.moved(id, from, to).book.by_status, from).contains(id),
{
    let post = env.moved(id, from, to).book.by_status;
    let before = dropped(env.book.by_status, from, id);
    let l = listed(before, to);
    assert(l.push(id)[l.len() as int] == id);
    lemma_without_gone(listed(env.book.by_status, from), id);
}

/// A list without an id does not hold it, and holds everything else as before.
pub proof fn lemma_without_gone(s: Seq<u64>, id: u64)
    ensures
        !without(s, id).contains(id),
        forall|x: u64| x != id ==> (without(s, id).contains(x) <==> #[trigger] s.contains(x)),
    decreases s.len(),
{
    if s.len() > 0 {
        let t = s.drop_last();
        lemma_without_gone(t, id);
        let w = without(t, id);
        assert forall|x: u64| x != id implies (without(s, id).contains(x) <==> #[trigger] s.contains(
            x,
        )) by {
            assert(t.contains(x) <==> w.contains(x));
            if s.contains(x) {
                let i = choose|i: int| 0 <= i < s.len() && s[i] == x;
                if i < t.len() {
                    assert(t[i] == x);
                    let j = choose|j: int| 0 <= j < w.len() && w[j] == x;
                    assert(without(s, id)[j] == x);
                } else {
                    assert(without(s, id)[w.len() as int] == x);
                }
            }
            if without(s, id).contains(x) {
                let j = choose|j: int| 0 <= j < without(s, id).len() && without(s, id)[j] == x;
                if j < w.len() {
                    assert(w[j] == x);
                    let i = choose|i: int| 0 <= i < t.len() && t[i] == x;
                    assert(s[i] == x);
                } else {
                    assert(s[s.len() - 1] == x);
                }
            }
        }
        if without(s, id).contains(id) {
            let j = choose|j: int| 0 <= j < without(s, id).len() && without(s, id)[j] == id;
            if j < w.len() {
                assert(w[j] == id);
            }
        }
    }
}

/// Taking back an id that was just listed, and was not listed before, restores
/// the list.
pub proof fn law_listing_undone(index: Map<Address, Seq<u64>>, key: Address, id: u64)
    requires
        !listed(index, key).contains(id),
    ensures
        listed(dropped(appended(index, key, id), key, id), key) == listed(index, key),
{
    let s = listed(index, key);
    assert(s.push(id).drop_last() =~= s);
    lemma_without_none(s, id);
}

/// A list that does not hold an id is the same without it.
pub proof fn lemma_without_none(s: Seq<u64>, id: u64)
    requires
        !s.contains(id),
    ensures
        without(s, id) == s,
    decreases s.len(),
{
    if s.len() > 0 {
        let t = s.drop_last();
        assert forall|i: int| 0 <= i < t.len() implies t[i] != id by {
            assert(s[i] == t[i]);
            assert(s.contains(s[i]));
        }
        lemma_without_none(t, id);
        assert(s.contains(s[s.len() - 1]));
        assert(t.push(s.last()) =~= s);
    }
}

/// Two pages in a row are one piece of the list.
pub proof fn law_pages(s: Seq<u64>, offset: int, limit: int)
    requires
        0 <= offset,
        0 <= limit <= 50,
    ensures
        page(s, offset, limit, 50) + page(s, offset + limit, limit, 50) == page(
            s,
            offset,
            limit + limit,
            100,
        ),
{
    assert(page(s, offset, limit, 50) + page(s, offset + limit, limit, 50) =~= page(
        s,
        offset,
        limit + limit,
        100,
    ));
}

/// No page is longer than fifty, whatever is asked for.
pub proof fn law_page_size(s: Seq<u64>, offset: int, limit: int)
    requires
        0 <= offset,
        0 <= limit,
    ensures
        page(s, offset, limit, 50).len() <= 50,
        page(s, offset, limit, 50).len() <= limit,
{
}

/// The tiers that hold by default can be used.
pub proof fn law_default_tiers_usable()
    ensures
        crate::fees::usable_tiers(crate::fees::default_tiers()),
{
}

/// The rate of an amount is that of the highest tier that it reaches.
pub proof fn law_highest_tier_counts(t: Seq<FeeTier>, amount: i128, i: int)
    requires
        crate::fees::usable_tiers(t),
        0 <= i < t.len(),
        t[i].min_total_amount <= amount,
        forall|j: int| i < j < t.len() ==> amount < (#[trigger] t[j]).min_total_amount,
    ensures
        crate::fees::selected_bps(t, amount) == t[i].fee_bps,
    decreases t.len(),
{
    if i < t.len() - 1 {
        let d = t.drop_last();
        assert(amount < t[t.len() - 1].min_total_amount);
        assert forall|k: int| 0 <= k < d.len() implies (#[trigger] d[k]).min_total_amount >= 0
            && d[k].fee_bps <= 10_000 by {
            assert(t[k].min_total_amount >= 0);
        }
        assert forall|k: int, j: int| 0 <= k < j < d.len() implies (
        #[trigger] d[k]).min_total_amount < (#[trigger] d[j]).min_total_amount by {
            assert(t[k].min_total_amount < t[j].min_total_amount);
        }
        law_highest_tier_counts(d, amount, i);
    }
}

/// A template can be looked up as it was kept.
pub proof fn law_template_kept(
    env: LedgerView,
    caller: Address,
    name: Seq<u8>,
    milestones: Seq<MilestoneTemplateView>,
)
    requires
        env.template_created(caller, name, milestones) is Ok,
    ensures
        ({
            let (post, id) = env.template_created(caller, name, milestones)->Ok_0;
            post.book.templates[id] == TemplateView { id, creator: caller, name, milestones }
        }),
{
}

/// Evidence is only ever added: what was there stays in its place.
pub proof fn law_evidence_kept(
    env: LedgerView,
    caller: Address,
    id: u64,
    hash: Hash32,
    description: Seq<u8>,
)
    requires
        env.add_evidence(caller, id, hash, description) is Ok,
        env.evidence_on(id).len() < u32::MAX,
    ensures
        ({
            let (post, n) = env.add_evidence(caller, id, hash, description)->Ok_0;
            &&& n == env.evidence_on(id).len() + 1
            &&& post.evidence_on(id).len() == n
            &&& env.evidence_on(id).is_prefix_of(post.evidence_on(id))
            &&& post.evidence_on(id).last().evidence_hash == hash
            &&& post.evidence_on(id).last().submitted_by == caller
        }),
{
    let (post, n) = env.add_evidence(caller, id, hash, description)->Ok_0;
    assert(env.evidence_on(id) =~= post.evidence_on(id).subrange(
        0,
        env.evidence_on(id).len() as int,
    ));
}

/// Terms are accepted once, and then an escrow with terms can be released.
pub proof fn law_terms_accepted_once(env: LedgerView, caller: Address, id: u64)
    requires
        env.accept(caller, id) is Ok,
        env.has_meta(id),
        env.meta(id).escrow_id == id,
    ensures
        ({
            let post = env.accept(caller, id)->Ok_0.0;
            &&& post.accept(caller, id) is Err
            &&& post.terms_check(id, post.meta(id)) is Ok
        }),
{
}

/// A release time is set once and by the client, and before it comes nothing is
/// released on its account.
pub proof fn law_release_time_holds(
    env: LedgerView,
    caller: Address,
    id: u64,
    mid: u32,
    at: u64,
    later: u64,
)
    ensures
        env.book.release_times.contains_key(id) && env.timestamp < env.book.release_times[id]
            ==> env.timed_release(caller, id, mid) is Err,
        env.book.release_times.contains_key(id) ==> env.set_release_time(caller, id, at) is Err,
        env.set_release_time(caller, id, at) is Ok ==> {
            let post = env.set_release_time(caller, id, at)->Ok_0.0;
            &&& env.has_meta(id) && caller == env.meta(id).client
            &&& post.book.release_times[id] == at
            &&& post.set_release_time(caller, id, later) is Err
            &&& post.timed_release(caller, id, mid) is Err
        },
{
}

/// Adding milestones never takes an escrow past its cap.
pub proof fn law_milestone_cap(
    env: LedgerView,
    caller: Address,
    id: u64,
    title: Seq<u8>,
    hash: Hash32,
    amount: i128,
    titles: Seq<Seq<u8>>,
    hashes: Seq<Hash32>,
    amounts: Seq<i128>,
)
    requires
        env.has_meta(id) ==> env.meta(id).escrow_id == id,
    ensures
        env.add_milestone(caller, id, title, hash, amount) is Ok ==> env.add_milestone(
            caller,
            id,
            title,
            hash,
            amount,
        )->Ok_0.0.meta(id).milestone_count <= env.milestone_cap(),
        env.batch_add(caller, id, titles, hashes, amounts) is Ok ==> env.batch_add(
            caller,
            id,
            titles,
            hashes,
            amounts,
        )->Ok_0.0.meta(id).milestone_count <= env.milestone_cap(),
{
}

/// While an escrow is in dispute nothing of it is approved, nothing is released,
/// and it cannot be cancelled.
#[verifier::rlimit(40)]
pub proof fn law_dispute_freezes(
    env: LedgerView,
    caller: Address,
    id: u64,
    mid: u32,
    ids: Seq<u32>,
    reason: Seq<u8>,
)
    requires
        env.has_meta(id),
        env.meta(id).status == EscrowStatus::Disputed,
    ensures
        env.approve(caller, id, mid) is Err,
        env.batch_approve(caller, id, ids) is Err,
        env.release(caller, id, mid) is Err,
        env.batch_release(caller, id, ids) is Err,
        env.oracle_release(caller, id, mid) is Err,
        env.timed_release(caller, id, mid) is Err,
        env.process_recurring(id) is Err,
        env.cancel(caller, id) is Err,
        env.cancel_rest(caller, id) is Err,
        env.cancel_schedule(caller, id) is Err,
        env.ask_cancellation(caller, id, reason) is Err,
{
}

/// A cancellation that the other party agreed to need not wait; one that it
/// objected to is not carried out.
#[verifier::rlimit(40)]
pub proof fn law_cancellation_answered(env: LedgerView, caller: Address, id: u64, now: u64)
    requires
        env.has_meta(id) ==> env.meta(id).escrow_id == id,
        env.book.cancellations.contains_key(id) ==> env.book.cancellations[id].escrow_id == id,
    ensures
        env.agree_cancellation(caller, id) is Ok ==> (LedgerView {
            timestamp: now,
            ..env.agree_cancellation(caller, id)->Ok_0.0
        }).execute_cancellation(id) != Err::<(LedgerView, ()), EscrowError>(EscrowError::E35),
        env.object_cancellation(caller, id) is Ok ==> (LedgerView {
            timestamp: now,
            ..env.object_cancellation(caller, id)->Ok_0.0
        }).execute_cancellation(id) is Err,
{
}

/// A held amount stays held while it can be disputed, and while it is.
pub proof fn law_slash_held(env: LedgerView, id: u64)
    requires
        env.book.slashes.contains_key(id),
        env.book.slashes[id].disputed || env.timestamp < env.book.slashes[id].slashed_at
            + SLASH_DISPUTE_PERIOD,
    ensures
        env.finalize(id) is Err,
{
}

/// The children of a split keep the approval policy, and are locked at least as
/// long as their parent.
#[verifier::rlimit(40)]
pub proof fn law_split_keeps_protection(
    env: LedgerView,
    caller: Address,
    id: u64,
    amount: i128,
    hash: Hash32,
)
    requires
        env.split(caller, id, amount, hash) is Ok,
        env.config.escrow_counter < u64::MAX - 1,
        env.has_meta(id),
        env.meta(id).timelock matches Some(t) ==> t.start_ledger <= env.timestamp,
    ensures
        ({
            let m = env.meta(id);
            let (post, (one, two)) = env.split(caller, id, amount, hash)->Ok_0;
            forall|c: u64| (c == one || c == two) ==> {
                let child = #[trigger] post.meta(c);
                &&& child.multisig_threshold == m.multisig_threshold
                &&& m.multisig_threshold > 0 ==> child.buyer_signers == m.buyer_signers
                    && child.multisig_weights == m.multisig_weights
                &&& child.lock_time == m.lock_time
                &&& m.timelock matches Some(t) ==> child.timelock matches Some(u)
                    && u.start_ledger + u.duration_ledger >= t.start_ledger + t.duration_ledger
            }
        }),
{
}

} // verus!
