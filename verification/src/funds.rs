//! Where the money goes: whatever an escrow's books say it holds, the contract
//! took in and has not paid out.
use vstd::prelude::*;

use crate::creation::NewEscrow;
use crate::errors::EscrowError;
use crate::events::{EffectView, Event};
use crate::ledger::LedgerView;
use crate::recurring::Run;
use crate::release::{lemma_waiting_told, toward_zero};
use crate::storage::{rent_periods, reserve};
use crate::types::{
    Address, Hash32, MetaView, MilestoneView, OracleResolutionPayload, PriceCondition,
    RecurringInterval,
};

verus! {

/// What an effect brings somebody of a token.
pub open spec fn brings(x: EffectView, token: Address, who: Address) -> int {
    match x {
        EffectView::Transfer { token: t, from, to, amount } => if t != token {
            0
        } else if from == who && to != who {
            -amount
        } else if from != who && to == who {
            amount as int
        } else {
            0
        },
        _ => 0,
    }
}

/// What a list of effects brings somebody of a token.
pub open spec fn gained(log: Seq<EffectView>, token: Address, who: Address) -> int
    decreases log.len(),
{
    if log.len() == 0 {
        0
    } else {
        gained(log.drop_last(), token, who) + brings(log.last(), token, who)
    }
}

/// One effect more brings what it brings.
pub broadcast proof fn lemma_gained_push(
    log: Seq<EffectView>,
    x: EffectView,
    token: Address,
    who: Address,
)
    ensures
        #[trigger] gained(log.push(x), token, who) == gained(log, token, who) + brings(
            x,
            token,
            who,
        ),
{
    assert(log.push(x).drop_last() =~= log);
}

impl LedgerView {
    /// What the books say that an escrow holds: its balance, its prepaid rent,
    /// and what is held of it against somebody.
    pub open spec fn held(self, id: u64) -> int {
        (if self.has_meta(id) {
            self.meta(id).remaining_balance + self.meta(id).rent_balance
        } else {
            0
        }) + (if self.book.slashes.contains_key(id) {
            self.book.slashes[id].amount as int
        } else {
            0
        })
    }

    /// What the contract has taken in of a token, less what it has paid out.
    pub open spec fn purse(self, token: Address) -> int {
        gained(self.log, token, self.contract)
    }

    /// The fee that an escrow still owes the platform. It is paid when the escrow
    /// ends, and stands in no escrow's books.
    pub open spec fn owed_fee(self, id: u64) -> int {
        if self.fee_snapshot(id).collected {
            0
        } else {
            self.fee_snapshot(id).fee_amount as int
        }
    }

    /// The arbiter's part of an escrow that ends in a dispute. It stands in no
    /// escrow's books either.
    pub open spec fn owed_arbiter(self, id: u64) -> int {
        let m = self.meta(id);
        let part = toward_zero(m.total_amount * m.arbiter_fee_bps, 10_000);
        if m.arbiter is Some && part > 0 {
            part
        } else {
            0
        }
    }

    /// The contract is none of those who deal with an escrow.
    pub open spec fn apart(self, id: u64) -> bool {
        let m = self.meta(id);
        &&& self.has_meta(id)
        &&& m.escrow_id == id
        &&& m.client != self.contract
        &&& m.freelancer != self.contract
        &&& m.arbiter != Some(self.contract)
        &&& self.config.admin != Some(self.contract)
        &&& self.config.platform_treasury != Some(self.contract)
    }
}

/// What came in between two states, and what was booked for an escrow, are the
/// same.
pub open spec fn balanced(pre: LedgerView, post: LedgerView, id: u64, token: Address) -> bool {
    post.purse(token) - pre.purse(token) == post.held(id) - pre.held(id)
}

/// The same, but for an amount that was paid out and not booked for the escrow.
pub open spec fn balanced_but(
    pre: LedgerView,
    post: LedgerView,
    id: u64,
    token: Address,
    extra: int,
) -> bool {
    post.purse(token) - pre.purse(token) == post.held(id) - pre.held(id) - extra
}

/// Looking an escrow up keeps its books.
pub proof fn lemma_access_balanced(env: LedgerView, id: u64)
    requires
        env.apart(id),
        env.accessed(id) is Ok,
    ensures
        ({
            let (post, m) = env.accessed(id)->Ok_0;
            &&& balanced(env, post, id, m.token)
            &&& post.meta(id) == m
            &&& post.has_meta(id)
            &&& post.contract == env.contract
            &&& post.config == env.config
            &&& post.book.slashes == env.book.slashes
            &&& post.book.milestones == env.book.milestones
            &&& post.book.fee_snapshots == env.book.fee_snapshots
            &&& post.book.cancellations == env.book.cancellations
            &&& m == (MetaView {
                rent_balance: m.rent_balance,
                last_rent_collection_at: m.last_rent_collection_at,
                ..env.meta(id)
            })
            &&& post.held(id) == m.remaining_balance + m.rent_balance + (
            if env.book.slashes.contains_key(id) {
                env.book.slashes[id].amount as int
            } else {
                0
            })
        }),
{
    broadcast use lemma_gained_push;

    let m = env.meta(id);
    let elapsed = crate::storage::rent_periods(env.timestamp, m.last_rent_collection_at);
    if elapsed > 0 {
        let per = env.rent_per_period(m);
        let q = m.rent_balance as int / per;
        vstd::arithmetic::div_mod::lemma_fundamental_div_mod(m.rent_balance as int, per);
        assert(m.rent_balance >= per * elapsed && per * elapsed > 0) by (nonlinear_arith)
            requires
                m.rent_balance as int == per * q + m.rent_balance as int % per,
                0 <= m.rent_balance as int % per,
                q >= elapsed,
                elapsed > 0,
                per >= 1,
        ;
    }
}

/// Telling observers costs nothing.
proof fn lemma_waiting_purse(env: LedgerView, id: u64, prereq: u32, n: nat, token: Address)
    ensures
        env.waiting_told(id, prereq, n).purse(token) == env.purse(token),
    decreases n,
{
    broadcast use lemma_gained_push;

    if n > 0 {
        lemma_waiting_purse(env, id, prereq, (n - 1) as nat, token);
        lemma_waiting_told(env, id, prereq, (n - 1) as nat);
    }
}

/// A second look finds the header of the first one.
proof fn lemma_dependents_after_access(env: LedgerView, id: u64, prereq: u32, m: MetaView)
    requires
        env.has_meta(id),
        env.meta(id) == m,
        m.escrow_id == id,
        crate::storage::rent_periods(env.timestamp, m.last_rent_collection_at) == 0,
    ensures
        env.dependents_told(id, prereq).purse(m.token) == env.purse(m.token),
        env.dependents_told(id, prereq).meta(id) == m,
        env.dependents_told(id, prereq).has_meta(id),
        env.dependents_told(id, prereq).contract == env.contract,
        env.dependents_told(id, prereq).book.slashes == env.book.slashes,
{
    assert(env.saved_meta(m).book.metas =~= env.book.metas);
    lemma_waiting_told(env.saved_meta(m), id, prereq, m.milestone_count as nat);
    lemma_waiting_purse(env.saved_meta(m), id, prereq, m.milestone_count as nat, m.token);
}

/// A new escrow holds what its client paid in.
pub proof fn law_creation_balanced(env: LedgerView, a: NewEscrow)
    requires
        env.created(a) is Ok,
        a.client != env.contract,
        !env.has_meta(env.config.escrow_counter),
        !env.book.slashes.contains_key(env.config.escrow_counter),
    ensures
        balanced(env, env.created(a)->Ok_0.0, env.config.escrow_counter, a.token),
        env.created(a)->Ok_0.0.held(env.config.escrow_counter) == a.total_amount + reserve(1),
{
    broadcast use lemma_gained_push;

}

/// A new schedule holds what its client paid in.
pub proof fn law_recurring_creation_balanced(
    env: LedgerView,
    client: Address,
    freelancer: Address,
    token: Address,
    payment_amount: i128,
    interval: RecurringInterval,
    start_time: u64,
    end_date: Option<u64>,
    number_of_payments: Option<u32>,
    brief_hash: Hash32,
)
    requires
        env.recurring_created(
            client,
            freelancer,
            token,
            payment_amount,
            interval,
            start_time,
            end_date,
            number_of_payments,
            brief_hash,
        ) is Ok,
        client != env.contract,
        !env.has_meta(env.config.escrow_counter),
        !env.book.slashes.contains_key(env.config.escrow_counter),
    ensures
        balanced(
            env,
            env.recurring_created(
                client,
                freelancer,
                token,
                payment_amount,
                interval,
                start_time,
                end_date,
                number_of_payments,
                brief_hash,
            )->Ok_0.0,
            env.config.escrow_counter,
            token,
        ),
{
    broadcast use lemma_gained_push;

    let n = crate::schedule::total_payments(
        start_time,
        interval,
        end_date,
        number_of_payments,
    )->Ok_0;
    assert(payment_amount * n >= 0) by (nonlinear_arith)
        requires
            payment_amount >= 1,
            n >= 0,
    ;
}

/// Adding a milestone books the rent that the client pays for it, if any.
#[verifier::rlimit(40)]
pub proof fn law_adding_balanced(
    env: LedgerView,
    caller: Address,
    id: u64,
    title: Seq<u8>,
    hash: Hash32,
    amount: i128,
    condition: PriceCondition,
)
    requires
        env.apart(id),
    ensures
        env.add_milestone(caller, id, title, hash, amount) is Ok ==> balanced(
            env,
            env.add_milestone(caller, id, title, hash, amount)->Ok_0.0,
            id,
            env.meta(id).token,
        ),
        env.add_price_milestone(caller, id, title, hash, amount, condition) is Ok ==> balanced(
            env,
            env.add_price_milestone(caller, id, title, hash, amount, condition)->Ok_0.0,
            id,
            env.meta(id).token,
        ),
{
    broadcast use lemma_gained_push;

    if env.authed(caller).accessed(id) is Ok {
        lemma_access_balanced(env.authed(caller), id);
    }
}

/// Submitting and rejecting work moves no money, but for the rent that is due.
#[verifier::rlimit(40)]
pub proof fn law_review_balanced(
    env: LedgerView,
    caller: Address,
    id: u64,
    mid: u32,
    reason: Hash32,
)
    requires
        env.apart(id),
    ensures
        env.submit(caller, id, mid) is Ok ==> balanced(
            env,
            env.submit(caller, id, mid)->Ok_0.0,
            id,
            env.meta(id).token,
        ),
        env.reject(caller, id, mid) is Ok ==> balanced(
            env,
            env.reject(caller, id, mid)->Ok_0.0,
            id,
            env.meta(id).token,
        ),
        env.reject_with_reason(caller, id, mid, reason) is Ok ==> balanced(
            env,
            env.reject_with_reason(caller, id, mid, reason)->Ok_0.0,
            id,
            env.meta(id).token,
        ),
{
    broadcast use lemma_gained_push;

    if env.authed(caller).accessed(id) is Ok {
        lemma_access_balanced(env.authed(caller), id);
    }
}

/// An approved milestone leaves the books by what it pays.
proof fn lemma_approval_balanced(
    env: LedgerView,
    caller: Address,
    id: u64,
    mid: u32,
    m: MetaView,
    ms: MilestoneView,
)
    requires
        env.apart(id),
        env.meta(id) == m,
        crate::storage::rent_periods(env.timestamp, m.last_rent_collection_at) == 0,
        env.approval_done(caller, id, mid, m, ms) is Ok,
    ensures
        balanced(env, env.approval_done(caller, id, mid, m, ms)->Ok_0.0, id, m.token),
{
    broadcast use lemma_gained_push;

    let seen = env.timelock_seen(id, m.timelock);
    let over = env.timelock_over(id, m.timelock) is Ok;
    let paid = if over {
        seen.paid(m.token, m.freelancer, ms.amount).told(
            Event::FundsReleased { escrow_id: id, to: m.freelancer, amount: ms.amount },
        )
    } else {
        seen
    };
    let ms2 = MilestoneView {
        status: if over {
            crate::types::MS_RELEASED
        } else {
            crate::types::MS_APPROVED
        },
        resolved_at: Some(env.timestamp),
        ..ms
    };
    lemma_dependents_after_access(paid.saved_milestone(id, ms2), id, mid, m);
}

/// Approving a milestone pays exactly what leaves the books.
#[verifier::rlimit(40)]
pub proof fn law_approval_balanced(env: LedgerView, caller: Address, id: u64, mid: u32)
    requires
        env.apart(id),
        env.approve(caller, id, mid) is Ok,
    ensures
        balanced(env, env.approve(caller, id, mid)->Ok_0.0, id, env.meta(id).token),
{
    broadcast use lemma_gained_push;

    let asked = env.authed(caller);
    lemma_access_balanced(asked, id);
    crate::rent::lemma_settled_once(asked, asked.meta(id));
    let (seen, m) = asked.accessed(id)->Ok_0;
    let open = seen.unlocked(id, m.lock_time)->Ok_0.0;
    let ms = open.milestone(id, mid);
    if m.multisig_threshold == 0 {
        lemma_approval_balanced(open, caller, id, mid, m, ms);
    } else {
        let signed = open.signed(ms, caller);
        let weight = crate::multisig::accrued(m, signed.approvals);
        let noted = open.told(
            Event::MultisigApprovalRecorded {
                escrow_id: id,
                milestone_id: mid,
                signer: caller,
                accrued: weight as u32,
                threshold: m.multisig_threshold,
            },
        );
        if weight >= m.multisig_threshold {
            lemma_approval_balanced(noted, caller, id, mid, m, signed);
        }
    }
}

/// Releasing a milestone pays exactly what leaves the books. With the last one
/// goes the fee that the platform is still owed.
#[verifier::rlimit(40)]
pub proof fn law_release_balanced(env: LedgerView, caller: Address, id: u64, mid: u32)
    requires
        env.apart(id),
        env.release(caller, id, mid) is Ok,
    ensures
        balanced_but(
            env,
            env.release(caller, id, mid)->Ok_0.0,
            id,
            env.meta(id).token,
            if env.meta(id).released_count + 1 == env.meta(id).milestone_count
                && !env.scheduled(id) {
                env.owed_fee(id)
            } else {
                0
            },
        ),
{
    broadcast use lemma_gained_push;

    let asked = env.authed(caller);
    lemma_access_balanced(asked, id);
    crate::rent::lemma_settled_once(asked, asked.meta(id));
    let (seen, m) = asked.accessed(id)->Ok_0;
    let open = seen.timelock_seen(id, m.timelock).unlocked(id, m.lock_time)->Ok_0.0;
    let ms = env.milestone(id, mid);
    let done = m.released_count + 1 == m.milestone_count && !env.scheduled(id);
    let feed = open.last_fee(id, m.token, done)->Ok_0.0;
    let shown = feed.paid(m.token, m.freelancer, ms.amount).saved_milestone(
        id,
        MilestoneView { status: crate::types::MS_RELEASED, ..ms },
    );
    lemma_dependents_after_access(shown, id, mid, m);
}

/// A price that releases a milestone pays exactly what leaves the books.
#[verifier::rlimit(40)]
pub proof fn law_price_release_balanced(env: LedgerView, caller: Address, id: u64, mid: u32)
    requires
        env.apart(id),
        env.oracle_release(caller, id, mid) is Ok,
    ensures
        balanced(env, env.oracle_release(caller, id, mid)->Ok_0.0, id, env.meta(id).token),
{
    broadcast use lemma_gained_push;

    lemma_access_balanced(env.authed(caller), id);
}

/// A release by time pays exactly what leaves the books. With the last one goes
/// the fee that the platform is still owed.
#[verifier::rlimit(40)]
pub proof fn law_timed_release_balanced(env: LedgerView, caller: Address, id: u64, mid: u32)
    requires
        env.apart(id),
        env.timed_release(caller, id, mid) is Ok,
    ensures
        balanced_but(
            env,
            env.timed_release(caller, id, mid)->Ok_0.0,
            id,
            env.meta(id).token,
            if env.meta(id).released_count + 1 == env.meta(id).milestone_count
                && !env.scheduled(id) {
                env.owed_fee(id)
            } else {
                0
            },
        ),
{
    broadcast use lemma_gained_push;

    let asked = env.authed(caller);
    lemma_access_balanced(asked, id);
    crate::rent::lemma_settled_once(asked, asked.meta(id));
    let (seen, m) = asked.accessed(id)->Ok_0;
    let open = seen.lock_seen(id, m.lock_time);
    let ms = MilestoneView { resolved_at: Some(env.timestamp), ..env.milestone(id, mid) };
    let done = m.released_count + 1 == m.milestone_count && !env.scheduled(id);
    let feed = open.last_fee(id, m.token, done)->Ok_0.0;
    let shown = feed.paid(m.token, m.freelancer, ms.amount).saved_milestone(
        id,
        MilestoneView { status: crate::types::MS_RELEASED, ..ms },
    );
    lemma_dependents_after_access(shown, id, mid, m);
}

/// A run of payments pays what leaves the books.
proof fn lemma_run_balanced(run: Run, id: u64)
    requires
        run.paid_all(id) is Ok,
        run.m.freelancer != run.env.contract,
    ensures
        ({
            let end = run.paid_all(id)->Ok_0;
            &&& end.env.purse(run.m.token) - run.env.purse(run.m.token) == end.m.remaining_balance
                - run.m.remaining_balance
            &&& end.m.rent_balance == run.m.rent_balance
            &&& end.m.escrow_id == run.m.escrow_id
            &&& end.m.token == run.m.token
            &&& end.m.freelancer == run.m.freelancer
            &&& end.env.book.slashes == run.env.book.slashes
            &&& end.env.contract == run.env.contract
            &&& end.total - run.total == run.m.remaining_balance - end.m.remaining_balance
            &&& end.count - run.count <= run.c.payments_remaining
        }),
    decreases run.c.payments_remaining,
{
    broadcast use lemma_gained_push;

    if run.due() {
        let next = run.paid_once(id)->Ok_0;
        lemma_run_balanced(next, id);
    }
}

/// Making the payments that are due pays exactly what leaves the books, and no
/// more payments are made than were left.
pub proof fn law_recurring_balanced(env: LedgerView, id: u64)
    requires
        env.apart(id),
        env.process_recurring(id) is Ok,
    ensures
        balanced(env, env.process_recurring(id)->Ok_0.0, id, env.meta(id).token),
        env.process_recurring(id)->Ok_0.1 <= env.recurring(id).payments_remaining,
{
    broadcast use lemma_gained_push;

    lemma_access_balanced(env, id);
    let (seen, m) = env.accessed(id)->Ok_0;
    let run = Run { env: seen, m, c: seen.recurring(id), count: 0, total: 0 };
    lemma_run_balanced(run, id);
}

/// Cancelling pays out all that an escrow has left, and nothing else.
#[verifier::rlimit(40)]
pub proof fn law_cancel_balanced(env: LedgerView, caller: Address, id: u64)
    requires
        env.apart(id),
        env.meta(id).remaining_balance >= 0,
        env.cancel(caller, id) is Ok,
        env.authed(caller).accessed(id)->Ok_0.0.approved_due(
            id,
            env.meta(id).milestone_count as nat,
        )->Ok_0 >= 0,
    ensures
        balanced(env, env.cancel(caller, id)->Ok_0.0, id, env.meta(id).token),
        env.cancel(caller, id)->Ok_0.0.meta(id).remaining_balance == 0,
{
    broadcast use lemma_gained_push;

    lemma_access_balanced(env.authed(caller), id);
    let (seen, m) = env.authed(caller).accessed(id)->Ok_0;
    if seen.platform_fee(m.total_amount) is Ok {
        crate::fees::lemma_fee_bounds(seen, m.total_amount);
    }
}

/// A split moves an escrow's unallocated amount into its children and takes in
/// nothing but their rent.
#[verifier::rlimit(40)]
pub proof fn law_split_balanced(
    env: LedgerView,
    caller: Address,
    id: u64,
    amount: i128,
    hash: Hash32,
)
    requires
        env.apart(id),
        env.split(caller, id, amount, hash) is Ok,
        env.config.escrow_counter < u64::MAX - 1,
        id < env.config.escrow_counter,
        i128::MIN <= env.meta(id).remaining_balance - env.meta(id).allocated_amount <= i128::MAX,
        !env.book.slashes.contains_key(env.config.escrow_counter),
        !env.book.slashes.contains_key((env.config.escrow_counter + 1) as u64),
    ensures
        ({
            let (post, (one, two)) = env.split(caller, id, amount, hash)->Ok_0;
            let token = env.meta(id).token;
            let seen = env.authed(caller).accessed(id)->Ok_0.0;
            &&& post.meta(id).remaining_balance == env.meta(id).allocated_amount
            &&& post.meta(id).status == env.meta(id).status
            &&& post.meta(one).remaining_balance + post.meta(two).remaining_balance + post.meta(
                id,
            ).remaining_balance == env.meta(id).remaining_balance
            &&& post.purse(token) - seen.purse(token) == reserve(2)
            &&& post.purse(token) - env.purse(token) == post.held(id) + post.held(one) + post.held(
                two,
            ) - env.held(id)
        }),
{
    broadcast use lemma_gained_push;

    lemma_access_balanced(env.authed(caller), id);
}

/// A child of a split that is cancelled gives the client its whole share back.
#[verifier::rlimit(40)]
pub proof fn law_split_share_refunded(
    env: LedgerView,
    caller: Address,
    id: u64,
    amount: i128,
    hash: Hash32,
    second: bool,
)
    requires
        env.split(caller, id, amount, hash) is Ok,
        env.config.escrow_counter < u64::MAX - 1,
        id < env.config.escrow_counter,
        env.has_meta(id),
        env.meta(id).client != env.contract,
        i128::MIN <= env.meta(id).remaining_balance - env.meta(id).allocated_amount <= i128::MAX,
        !env.config.reentrancy_lock,
        !env.is_frozen(env.config.escrow_counter),
        !env.is_frozen((env.config.escrow_counter + 1) as u64),
    ensures
        ({
            let (split, (one, two)) = env.split(caller, id, amount, hash)->Ok_0;
            let child = if second {
                two
            } else {
                one
            };
            let (token, client) = (env.meta(id).token, env.meta(id).client);
            let r = split.cancel(client, child);
            &&& r is Ok
            &&& gained(r->Ok_0.0.log, token, client) - gained(split.log, token, client)
                == split.meta(child).remaining_balance
            &&& split.meta(one).remaining_balance + split.meta(two).remaining_balance == env.meta(
                id,
            ).remaining_balance - env.meta(id).allocated_amount
        }),
{
    broadcast use lemma_gained_push;

    let (split, (one, two)) = env.split(caller, id, amount, hash)->Ok_0;
    let child = if second {
        two
    } else {
        one
    };
    let asked = split.authed(env.meta(id).client);
    let m = split.meta(child);
    assert(m.milestone_count == 0);
    assert(rent_periods(env.timestamp, m.last_rent_collection_at) == 0);
    assert(asked.accessed(child)->Ok_0 == (asked.saved_meta(m), m));
    assert(asked.saved_meta(m).approved_due(child, 0) == Ok::<i128, EscrowError>(0));
    assert(asked.saved_meta(m).cancel_fee(child, m) == Ok::<i128, EscrowError>(0));
}

/// Taking back what no milestone claims, and cancelling a schedule, pay exactly
/// what leaves the books.
#[verifier::rlimit(40)]
pub proof fn law_partial_cancel_balanced(env: LedgerView, caller: Address, id: u64)
    requires
        env.apart(id),
        env.meta(id).remaining_balance >= 0,
    ensures
        env.cancel_rest(caller, id) is Ok ==> balanced(
            env,
            env.cancel_rest(caller, id)->Ok_0.0,
            id,
            env.meta(id).token,
        ),
        env.cancel_schedule(caller, id) is Ok ==> balanced(
            env,
            env.cancel_schedule(caller, id)->Ok_0.0,
            id,
            env.meta(id).token,
        ),
{
    broadcast use lemma_gained_push;

    if env.authed(caller).accessed(id) is Ok {
        lemma_access_balanced(env.authed(caller), id);
    }
}

/// A dispute that nobody decided in time pays exactly what the escrow has left,
/// and on top of that what the platform and the arbiter are owed.
#[verifier::rlimit(40)]
pub proof fn law_timeout_balanced(env: LedgerView, caller: Address, id: u64)
    requires
        env.apart(id),
        env.meta(id).remaining_balance >= 0,
        env.claim_timeout(caller, id) is Ok,
    ensures
        balanced_but(
            env,
            env.claim_timeout(caller, id)->Ok_0.0,
            id,
            env.meta(id).token,
            env.owed_fee(id) + env.owed_arbiter(id),
        ),
{
    broadcast use lemma_gained_push;

    lemma_access_balanced(env.authed(caller), id);
}

/// A decided dispute pays exactly what the escrow has left, and on top of that
/// what the platform and the arbiter are owed.
#[verifier::rlimit(40)]
pub proof fn law_decision_balanced(
    env: LedgerView,
    caller: Address,
    id: u64,
    client_amount: i128,
    freelancer_amount: i128,
)
    requires
        env.apart(id),
        client_amount >= 0,
        freelancer_amount >= 0,
        env.resolve(caller, id, client_amount, freelancer_amount) is Ok,
    ensures
        balanced_but(
            env,
            env.resolve(caller, id, client_amount, freelancer_amount)->Ok_0.0,
            id,
            env.meta(id).token,
            env.owed_fee(id) + env.owed_arbiter(id),
        ),
{
    broadcast use lemma_gained_push;

    lemma_access_balanced(env.authed(caller), id);
}

/// A signed decision pays exactly what the escrow has left, and on top of that
/// what the arbiter is owed.
#[verifier::rlimit(40)]
pub proof fn law_oracle_decision_balanced(
    env: LedgerView,
    id: u64,
    p: OracleResolutionPayload,
    grace: u64,
)
    requires
        env.apart(id),
        env.meta(id).remaining_balance >= 0,
        env.oracle_resolve(id, p, grace) is Ok,
    ensures
        balanced_but(
            env,
            env.oracle_resolve(id, p, grace)->Ok_0.0,
            id,
            env.meta(id).token,
            env.owed_arbiter(id),
        ),
{
    broadcast use lemma_gained_push;

    lemma_access_balanced(env, id);
    let (seen, m) = env.accessed(id)->Ok_0;
    crate::laws::law_oracle_shares_all(m, p);
    let (client_amount, freelancer_amount) = LedgerView::oracle_split(m, p);
    let signed = seen.logged(EffectView::VerifySignature(p));
    assert(signed.purse(m.token) == seen.purse(m.token));
    let paid = signed.arbiter_paid(m, None)->Ok_0.0;
    assert(paid.purse(m.token) == signed.purse(m.token) - env.owed_arbiter(id));
    let shared = paid.parties_paid(m, client_amount, freelancer_amount);
    assert(shared.purse(m.token) == paid.purse(m.token) - client_amount - freelancer_amount);
    let post = env.oracle_resolve(id, p, grace)->Ok_0.0;
    assert(post.purse(m.token) == shared.purse(m.token));
    assert(post.meta(id).remaining_balance == 0);
}

/// A cancellation that is carried out splits what is left between what is paid
/// back and what is held; handing the held amount over, or back, clears it.
#[verifier::rlimit(40)]
pub proof fn law_slashes_balanced(env: LedgerView, caller: Address, id: u64, upheld: bool)
    requires
        env.apart(id),
        env.meta(id).remaining_balance >= 0,
        env.book.cancellations.contains_key(id) ==> env.book.cancellations[id].requester
            != env.contract,
        env.book.slashes.contains_key(id) ==> env.book.slashes[id].recipient != env.contract
            && env.book.slashes[id].slashed_user != env.contract,
    ensures
        env.execute_cancellation(id) is Ok ==> balanced(
            env,
            env.execute_cancellation(id)->Ok_0.0,
            id,
            env.meta(id).token,
        ),
        env.finalize(id) is Ok ==> balanced(
            env,
            env.finalize(id)->Ok_0.0,
            id,
            env.meta(id).token,
        ),
        env.resolve_slash(caller, id, upheld) is Ok ==> balanced(
            env,
            env.resolve_slash(caller, id, upheld)->Ok_0.0,
            id,
            env.meta(id).token,
        ),
{
    broadcast use lemma_gained_push;

    if env.accessed(id) is Ok {
        lemma_access_balanced(env, id);
        crate::cancellation::lemma_slash_part(env.meta(id).remaining_balance as int);
    }
    if env.authed(caller).accessed(id) is Ok {
        lemma_access_balanced(env.authed(caller), id);
    }
}

/// Rent that is paid in, taken back or asked for with a cancellation is booked
/// as it moves.
#[verifier::rlimit(40)]
pub proof fn law_rent_balanced(
    env: LedgerView,
    caller: Address,
    id: u64,
    periods: u64,
    amount: i128,
    reason: Seq<u8>,
)
    requires
        env.apart(id),
    ensures
        env.top_up(caller, id, periods) is Ok ==> balanced(
            env,
            env.top_up(caller, id, periods)->Ok_0.0,
            id,
            env.meta(id).token,
        ),
        env.withdraw_rent(caller, id, amount) is Ok ==> balanced(
            env,
            env.withdraw_rent(caller, id, amount)->Ok_0.0,
            id,
            env.meta(id).token,
        ),
        env.ask_cancellation(caller, id, reason) is Ok ==> balanced(
            env,
            env.ask_cancellation(caller, id, reason)->Ok_0.0,
            id,
            env.meta(id).token,
        ),
{
    broadcast use lemma_gained_push;

    if env.authed(caller).accessed(id) is Ok {
        lemma_access_balanced(env.authed(caller), id);
        let (seen, m) = env.authed(caller).accessed(id)->Ok_0;
        assert(0 <= seen.rent_per_period(m) * periods <= 0x1_0000_0003 * 0x1_0000_0000_0000_0000)
            by (nonlinear_arith)
            requires
                1 <= seen.rent_per_period(m) <= 0x1_0000_0003,
                0 <= periods < 0x1_0000_0000_0000_0000,
        ;
    }
}

/// Writing the milestones of a batch costs nothing.
proof fn lemma_batch_saved(
    env: LedgerView,
    id: u64,
    first: u32,
    titles: Seq<Seq<u8>>,
    hashes: Seq<Hash32>,
    amounts: Seq<i128>,
    k: nat,
    token: Address,
)
    ensures
        ({
            let post = env.batch_saved(id, first, titles, hashes, amounts, k);
            &&& post.purse(token) == env.purse(token)
            &&& post.contract == env.contract
            &&& post.book.metas == env.book.metas
            &&& post.book.slashes == env.book.slashes
        }),
    decreases k,
{
    broadcast use lemma_gained_push;

    if k > 0 {
        lemma_batch_saved(env, id, first, titles, hashes, amounts, (k - 1) as nat, token);
    }
}

/// Adding several milestones books the rent that the client pays for them.
#[verifier::rlimit(40)]
pub proof fn law_batch_adding_balanced(
    env: LedgerView,
    caller: Address,
    id: u64,
    titles: Seq<Seq<u8>>,
    hashes: Seq<Hash32>,
    amounts: Seq<i128>,
)
    requires
        env.apart(id),
        env.batch_add(caller, id, titles, hashes, amounts) is Ok,
    ensures
        balanced(
            env,
            env.batch_add(caller, id, titles, hashes, amounts)->Ok_0.0,
            id,
            env.meta(id).token,
        ),
{
    broadcast use lemma_gained_push;

    lemma_access_balanced(env.authed(caller), id);
    let (seen, m) = env.authed(caller).accessed(id)->Ok_0;
    let n = titles.len();
    let charged = seen.charged(m.token, caller, reserve(n as int) as i128);
    lemma_batch_saved(charged, id, m.milestone_count, titles, hashes, amounts, n, m.token);
}

/// Marking the milestones of a batch costs nothing and leaves the header in the
/// books alone.
proof fn lemma_batch_marked(
    env: LedgerView,
    caller: Address,
    id: u64,
    stored: MetaView,
    m: MetaView,
    ids: Seq<u32>,
    over: bool,
    k: nat,
)
    requires
        env.has_meta(id),
        env.meta(id) == stored,
        stored.escrow_id == id,
        crate::storage::rent_periods(env.timestamp, stored.last_rent_collection_at) == 0,
        m.token == stored.token,
        env.batch_marked(caller, id, m, ids, over, k) is Ok,
    ensures
        ({
            let (post, m2) = env.batch_marked(caller, id, m, ids, over, k)->Ok_0;
            &&& post.purse(m.token) == env.purse(m.token)
            &&& post.has_meta(id)
            &&& post.meta(id) == stored
            &&& post.contract == env.contract
            &&& post.timestamp == env.timestamp
            &&& post.book.slashes == env.book.slashes
            &&& m2 == (MetaView {
                approved_count: m2.approved_count,
                submitted_count: m2.submitted_count,
                released_count: m2.released_count,
                ..m
            })
        }),
    decreases k,
{
    broadcast use lemma_gained_push;

    if k > 0 {
        lemma_batch_marked(env, caller, id, stored, m, ids, over, (k - 1) as nat);
        let (before, m1) = env.batch_marked(caller, id, m, ids, over, (k - 1) as nat)->Ok_0;
        let mid = ids[k - 1];
        let policy = m1.multisig_threshold > 0;
        let found = before.milestone(id, mid);
        let ms = if policy {
            before.signed(found, caller)
        } else {
            found
        };
        let weight = crate::multisig::accrued(m1, ms.approvals);
        let noted = if policy {
            before.told(
                Event::MultisigApprovalRecorded {
                    escrow_id: id,
                    milestone_id: mid,
                    signer: caller,
                    accrued: weight as u32,
                    threshold: m1.multisig_threshold,
                },
            )
        } else {
            before
        };
        let marked = noted.saved_milestone(
            id,
            MilestoneView {
                resolved_at: Some(before.timestamp),
                status: if over {
                    crate::types::MS_RELEASED
                } else {
                    crate::types::MS_APPROVED
                },
                ..ms
            },
        );
        lemma_dependents_after_access(marked, id, mid, stored);
        if marked.accessed(id) is Ok {
            let (seen, x) = marked.accessed(id)->Ok_0;
            lemma_waiting_told(seen, id, mid, x.milestone_count as nat);
        }
    }
}

/// Approving several milestones pays exactly what leaves the books.
#[verifier::rlimit(40)]
pub proof fn law_batch_approval_balanced(env: LedgerView, caller: Address, id: u64, ids: Seq<u32>)
    requires
        env.apart(id),
        env.batch_approve(caller, id, ids) is Ok,
    ensures
        balanced(env, env.batch_approve(caller, id, ids)->Ok_0.0, id, env.meta(id).token),
{
    broadcast use lemma_gained_push;

    let asked = env.authed(caller);
    lemma_access_balanced(asked, id);
    crate::rent::lemma_settled_once(asked, asked.meta(id));
    let (seen, m) = asked.accessed(id)->Ok_0;
    let open = seen.unlocked(id, m.lock_time)->Ok_0.0;
    let over = open.timelock_over(id, m.timelock) is Ok;
    let base = open.timelock_seen(id, m.timelock);
    lemma_batch_marked(base, caller, id, m, m, ids, over, ids.len());
}

/// Marking milestones as released costs nothing.
proof fn lemma_release_marked_purse(
    env: LedgerView,
    id: u64,
    to: Address,
    ids: Seq<u32>,
    k: nat,
    token: Address,
)
    ensures
        ({
            let post = env.release_marked(id, to, ids, k);
            &&& post.purse(token) == env.purse(token)
            &&& post.contract == env.contract
            &&& post.config == env.config
            &&& post.book.metas == env.book.metas
            &&& post.book.slashes == env.book.slashes
            &&& post.book.fee_snapshots == env.book.fee_snapshots
        }),
    decreases k,
{
    broadcast use lemma_gained_push;

    if k > 0 {
        lemma_release_marked_purse(env, id, to, ids, (k - 1) as nat, token);
    }
}

/// Releasing several milestones pays exactly what leaves the books. With the last
/// ones goes the fee that the platform is still owed.
#[verifier::rlimit(40)]
pub proof fn law_batch_release_balanced(env: LedgerView, caller: Address, id: u64, ids: Seq<u32>)
    requires
        env.apart(id),
        env.batch_release(caller, id, ids) is Ok,
    ensures
        balanced_but(
            env,
            env.batch_release(caller, id, ids)->Ok_0.0,
            id,
            env.meta(id).token,
            if env.meta(id).released_count + ids.len() == env.meta(id).milestone_count
                && !env.scheduled(id) {
                env.owed_fee(id)
            } else {
                0
            },
        ),
{
    broadcast use lemma_gained_push;

    lemma_access_balanced(env.authed(caller), id);
    let (seen, m) = env.authed(caller).accessed(id)->Ok_0;
    let open = seen.unlocked(id, m.lock_time)->Ok_0.0;
    lemma_release_marked_purse(open, id, m.freelancer, ids, ids.len(), m.token);
}

/// Taking milestones out of the books costs nothing.
proof fn lemma_cleared(env: LedgerView, id: u64, n: nat)
    ensures
        env.cleared(id, n) == env.with_book(
            crate::ledger::BookView {
                milestones: env.cleared(id, n).book.milestones,
                ..env.book
            },
        ),
    decreases n,
{
    if n > 0 {
        lemma_cleared(env, id, (n - 1) as nat);
    }
}

/// Collecting rent moves it from the books to the admin; an escrow whose rent
/// has run out is wound up with all it holds going back to its client, where
/// nothing is held against anybody.
#[verifier::rlimit(40)]
pub proof fn law_collection_balanced(env: LedgerView, id: u64)
    requires
        env.apart(id),
        env.meta(id).remaining_balance >= 0,
        env.meta(id).rent_balance >= 0,
        !env.book.slashes.contains_key(id),
        env.collect(id) is Ok,
    ensures
        balanced(env, env.collect(id)->Ok_0.0, id, env.meta(id).token),
{
    broadcast use lemma_gained_push;

    let m = env.meta(id);
    let elapsed = crate::storage::rent_periods(env.timestamp, m.last_rent_collection_at);
    crate::rent::lemma_rent_end_kept(env, m, elapsed);
    let (paid, (m2, amount)) = env.rent_collected(m)->Ok_0;
    if paid.rent_expired(m2) && paid.expired(m2) is Ok {
        let refund = m2.remaining_balance + m2.rent_balance;
        let refunded = if refund > 0 {
            paid.paid(m2.token, m2.client, refund as i128)
        } else {
            paid
        };
        lemma_cleared(refunded, id, m2.milestone_count as nat);
    }
}

} // verus!
