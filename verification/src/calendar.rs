//! When a schedule pays, and how much.
use vstd::prelude::*;

use crate::errors::EscrowError;
use crate::funds::{gained, lemma_gained_push};
use crate::gains::{gains, lemma_access_gained, outsider};
use crate::ledger::LedgerView;
use crate::recurring::Run;
use crate::schedule::{interval_seconds, lemma_payments_until};
use crate::types::{Address, EscrowStatus, Hash32, RecurringInterval, RecurringPaymentConfig};

verus! {

/// A day, a week, or thirty days, in seconds.
pub open spec fn gap(interval: RecurringInterval) -> int {
    match interval {
        RecurringInterval::Daily => 86_400,
        RecurringInterval::Weekly => 604_800,
        RecurringInterval::Monthly => 2_592_000,
    }
}

/// The `k`-th payment after one at `first` falls due then.
pub open spec fn due_at(first: int, interval: RecurringInterval, k: int) -> int {
    first + k * gap(interval)
}

proof fn lemma_due_next(first: int, interval: RecurringInterval, k: int)
    ensures
        due_at(first, interval, 0) == first,
        due_at(first + gap(interval), interval, k) == due_at(first, interval, k + 1),
        due_at(first, interval, k + 1) == due_at(first, interval, k) + gap(interval),
{
    let g = gap(interval);
    assert((k + 1) * g == k * g + g) by (nonlinear_arith);
    assert(0 * g == 0) by (nonlinear_arith);
}

/// A new schedule is kept as it was asked for. It starts in the future, and has as
/// many payments as the count and the end date allow, no fewer. The client pays for
/// all of them and for the rent of two entries.
#[verifier::rlimit(40)]
pub proof fn law_schedule_as_asked(
    env: LedgerView,
    client: Address,
    freelancer: Address,
    token: Address,
    payment_amount: i128,
    interval: RecurringInterval,
    start: u64,
    end: Option<u64>,
    count: Option<u32>,
    hash: Hash32,
)
    requires
        client != env.contract,
        env.recurring_created(
            client,
            freelancer,
            token,
            payment_amount,
            interval,
            start,
            end,
            count,
            hash,
        ) is Ok,
    ensures
        ({
            let (post, id) = env.recurring_created(
                client,
                freelancer,
                token,
                payment_amount,
                interval,
                start,
                end,
                count,
                hash,
            )->Ok_0;
            let c = post.recurring(id);
            let m = post.meta(id);
            let n = c.payments_remaining as int;
            &&& id == env.config.escrow_counter
            &&& client != freelancer
            &&& env.timestamp < start
            &&& payment_amount >= 1
            &&& hash.hi != 0 || hash.lo != 0
            &&& post.has_recurring(id)
            &&& c.interval == interval
            &&& c.payment_amount == payment_amount
            &&& c.start_time == start
            &&& c.next_payment_at == start
            &&& c.end_date == end
            &&& c.total_payments == n
            &&& c.processed_payments == 0
            &&& c.final_payment_amount is None
            &&& !c.paused && !c.cancelled
            &&& n >= 1
            &&& count matches Some(k) ==> n <= k
            &&& end matches Some(e) ==> due_at(start as int, interval, n - 1) <= e
            &&& count == Some(c.payments_remaining) || (end matches Some(e) && e < due_at(
                start as int,
                interval,
                n,
            ))
            &&& m.client == client && m.freelancer == freelancer && m.token == token
            &&& m.total_amount == payment_amount * n
            &&& m.remaining_balance == payment_amount * n
            &&& m.brief_hash == hash
            &&& m.status == EscrowStatus::Active
            &&& gained(post.log, token, client) - gained(env.log, token, client) == -(payment_amount
                * n) - 60
        }),
{
    broadcast use lemma_gained_push;

    let (post, id) = env.recurring_created(
        client,
        freelancer,
        token,
        payment_amount,
        interval,
        start,
        end,
        count,
        hash,
    )->Ok_0;
    let n = post.recurring(id).payments_remaining as int;
    assert(gap(interval) == interval_seconds(interval));
    if let Some(e) = end {
        lemma_payments_until(start, e, interval, n - 1);
        lemma_payments_until(start, e, interval, n);
    }
    assert(payment_amount * n >= 0) by (nonlinear_arith)
        requires
            payment_amount >= 1,
            n >= 0,
    ;
}

/// What a run of payments comes to.
proof fn lemma_run_pays(run: Run, id: u64, who: Address)
    requires
        run.paid_all(id) is Ok,
        run.c.final_payment_amount is None,
        run.m.freelancer != run.env.contract,
        who != run.env.contract,
    ensures
        ({
            let end = run.paid_all(id)->Ok_0;
            let n = end.count - run.count;
            let first = run.c.next_payment_at as int;
            &&& n >= 0
            &&& n <= run.c.payments_remaining
            &&& n == 0 <==> !run.due()
            &&& n > 0 ==> due_at(first, run.c.interval, n - 1) <= run.env.timestamp
            &&& end.c == (RecurringPaymentConfig {
                payments_remaining: end.c.payments_remaining,
                processed_payments: (run.c.processed_payments + n) as u32,
                last_payment_at: end.c.last_payment_at,
                next_payment_at: end.c.next_payment_at,
                ..run.c
            })
            &&& run.c.processed_payments + n <= u32::MAX
            &&& end.c.payments_remaining > 0 ==> {
                &&& end.c.payments_remaining == run.c.payments_remaining - n
                &&& end.c.next_payment_at == due_at(first, run.c.interval, n)
                &&& run.env.timestamp < end.c.next_payment_at
            }
            &&& end.c.payments_remaining == 0 ==> n == run.c.payments_remaining || (
            run.c.end_date matches Some(e) && e < due_at(first, run.c.interval, n))
            &&& end.m.remaining_balance == run.m.remaining_balance - n * run.c.payment_amount
            &&& end.m.escrow_id == run.m.escrow_id
            &&& gained(end.env.log, run.m.token, who) - gained(run.env.log, run.m.token, who)
                == if who == run.m.freelancer {
                n * run.c.payment_amount
            } else {
                0
            }
        }),
    decreases run.c.payments_remaining,
{
    broadcast use lemma_gained_push;

    let a = run.c.payment_amount as int;
    let first = run.c.next_payment_at as int;
    lemma_due_next(first, run.c.interval, 0);
    assert(0 * a == 0) by (nonlinear_arith);
    if run.due() {
        let next = run.paid_once(id)->Ok_0;
        assert(gap(run.c.interval) == interval_seconds(run.c.interval));
        lemma_run_pays(next, id, who);
        let end = run.paid_all(id)->Ok_0;
        let n = end.count - run.count;
        let k = end.count - next.count;
        assert(n == k + 1);
        assert(n * a == k * a + a) by (nonlinear_arith)
            requires
                n == k + 1,
        ;
        lemma_due_next(first, run.c.interval, k);
        lemma_due_next(first, run.c.interval, k - 1);
    }
}

/// The payments that are due are made, and no others: one payment each time that
/// the interval has passed, until none is left or the end date has passed. The
/// freelancer gains them, and the balance loses them.
#[verifier::rlimit(40)]
pub proof fn law_payments_do(env: LedgerView, id: u64, who: Address)
    requires
        env.process_recurring(id) is Ok,
        env.meta(id).escrow_id == id,
        env.recurring(id).final_payment_amount is None,
        env.meta(id).freelancer != env.contract,
        outsider(env, who),
    ensures
        ({
            let (post, made) = env.process_recurring(id)->Ok_0;
            let (was, is) = (env.recurring(id), post.recurring(id));
            let n = made as int;
            let first = was.next_payment_at as int;
            let m = env.meta(id);
            &&& m.status == EscrowStatus::Active
            &&& !was.paused && !was.cancelled
            &&& 1 <= n <= was.payments_remaining
            &&& due_at(first, was.interval, n - 1) <= env.timestamp
            &&& is.interval == was.interval
            &&& is.payment_amount == was.payment_amount
            &&& is.start_time == was.start_time
            &&& is.end_date == was.end_date
            &&& is.processed_payments == was.processed_payments + n
            &&& is.payments_remaining > 0 ==> {
                &&& is.payments_remaining == was.payments_remaining - n
                &&& is.next_payment_at == due_at(first, was.interval, n)
                &&& env.timestamp < due_at(first, was.interval, n)
            }
            &&& is.payments_remaining == 0 ==> n == was.payments_remaining || (
            was.end_date matches Some(e) && e < due_at(first, was.interval, n))
            &&& post.meta(id).remaining_balance == m.remaining_balance - n * was.payment_amount
            &&& gains(env, post, id, who) == if who == m.freelancer {
                n * was.payment_amount
            } else {
                0
            }
        }),
{
    broadcast use lemma_gained_push;

    let (seen, m) = env.accessed(id)->Ok_0;
    lemma_access_gained(env, id, m.token, who);
    let run = Run { env: seen, m, c: seen.recurring(id), count: 0, total: 0 };
    lemma_run_pays(run, id, who);
}

/// A payment that is due can be made: a schedule that runs refuses with the word
/// that nothing is due exactly when that is so.
pub proof fn law_payments_due(env: LedgerView, id: u64)
    requires
        env.config.admin is Some,
        !env.config.paused,
        env.accessed(id) is Ok,
        env.meta(id).status == EscrowStatus::Active,
        env.has_recurring(id),
        !env.recurring(id).cancelled,
        !env.recurring(id).paused,
        env.recurring(id).payments_remaining > 0,
        env.meta(id).slippage_bps == 0,
    ensures
        env.timestamp < env.recurring(id).next_payment_at ==> env.process_recurring(id) == Err::<
            (LedgerView, u32),
            EscrowError,
        >(EscrowError::E45),
        env.timestamp >= env.recurring(id).next_payment_at ==> env.process_recurring(id) != Err::<
            (LedgerView, u32),
            EscrowError,
        >(EscrowError::E45),
{
    if env.timestamp >= env.recurring(id).next_payment_at {
        let (seen, m) = env.accessed(id)->Ok_0;
        let run = Run { env: seen, m, c: seen.recurring(id), count: 0, total: 0 };
        lemma_run_error(run, id);
    }
}

/// A run of payments fails for other reasons.
proof fn lemma_run_error(run: Run, id: u64)
    ensures
        run.paid_all(id) != Err::<Run, EscrowError>(EscrowError::E45),
    decreases run.c.payments_remaining,
{
    if run.due() {
        if run.paid_once(id) is Ok {
            lemma_run_error(run.paid_once(id)->Ok_0, id);
        }
    }
}

/// A schedule that has kept its pace has its next payment due as many intervals
/// after its start as it has made payments.
pub open spec fn on_pace(c: RecurringPaymentConfig) -> bool {
    c.payments_remaining > 0 ==> c.next_payment_at == due_at(
        c.start_time as int,
        c.interval,
        c.processed_payments as int,
    )
}

/// A new schedule is on pace.
pub proof fn law_schedule_starts_on_pace(
    env: LedgerView,
    client: Address,
    freelancer: Address,
    token: Address,
    payment_amount: i128,
    interval: RecurringInterval,
    start: u64,
    end: Option<u64>,
    count: Option<u32>,
    hash: Hash32,
)
    requires
        env.recurring_created(
            client,
            freelancer,
            token,
            payment_amount,
            interval,
            start,
            end,
            count,
            hash,
        ) is Ok,
    ensures
        ({
            let (post, id) = env.recurring_created(
                client,
                freelancer,
                token,
                payment_amount,
                interval,
                start,
                end,
                count,
                hash,
            )->Ok_0;
            on_pace(post.recurring(id)) && post.recurring(id).interval == interval
        }),
{
    lemma_due_next(start as int, interval, 0);
}

/// Making payments keeps a schedule on pace, and before the next one is due, as
/// many intervals after the start as payments were made, nothing is paid.
#[verifier::rlimit(40)]
pub proof fn law_schedule_keeps_pace(env: LedgerView, id: u64)
    requires
        env.meta(id).escrow_id == id,
        env.recurring(id).final_payment_amount is None,
        env.meta(id).freelancer != env.contract,
        on_pace(env.recurring(id)),
    ensures
        env.process_recurring(id) is Ok ==> on_pace(
            env.process_recurring(id)->Ok_0.0.recurring(id),
        ),
        env.timestamp < due_at(
            env.recurring(id).start_time as int,
            env.recurring(id).interval,
            env.recurring(id).processed_payments as int,
        ) ==> env.process_recurring(id) is Err,
{
    if env.process_recurring(id) is Ok {
        let (seen, m) = env.accessed(id)->Ok_0;
        let c = env.recurring(id);
        let run = Run { env: seen, m, c, count: 0, total: 0 };
        lemma_run_pays(run, id, m.freelancer);
        let n = run.paid_all(id)->Ok_0.count as int;
        let (p, g, s) = (c.processed_payments as int, gap(c.interval), c.start_time as int);
        assert(s + (p + n) * g == s + p * g + n * g) by (nonlinear_arith);
    }
}

/// A paused schedule is as it was, but for making no payments; resumed, it goes on
/// from where it was, or from now if that is later.
#[verifier::rlimit(40)]
pub proof fn law_schedule_pauses(env: LedgerView, caller: Address, id: u64)
    requires
        env.has_meta(id),
        env.meta(id).escrow_id == id,
    ensures
        env.pause_schedule(caller, id) is Ok ==> {
            let post = env.pause_schedule(caller, id)->Ok_0.0;
            let (was, is) = (env.recurring(id), post.recurring(id));
            &&& caller == env.meta(id).client
            &&& is == (RecurringPaymentConfig {
                paused: true,
                paused_at: Some(env.timestamp),
                ..was
            })
            &&& post.process_recurring(id) is Err
            &&& post.meta(id).remaining_balance == env.meta(id).remaining_balance
        },
        env.resume_schedule(caller, id) is Ok ==> {
            let post = env.resume_schedule(caller, id)->Ok_0.0;
            let (was, is) = (env.recurring(id), post.recurring(id));
            &&& caller == env.meta(id).client
            &&& !was.cancelled
            &&& !was.paused ==> is == was
            &&& was.paused ==> is == (RecurringPaymentConfig {
                paused: false,
                paused_at: None,
                next_payment_at: if was.next_payment_at < env.timestamp {
                    env.timestamp
                } else {
                    was.next_payment_at
                },
                ..was
            })
            &&& post.meta(id).remaining_balance == env.meta(id).remaining_balance
        },
{
}

/// A schedule that its client cancels pays nothing more: what is left goes back to
/// the client, and the escrow is cancelled.
#[verifier::rlimit(40)]
pub proof fn law_schedule_cancelled(env: LedgerView, caller: Address, id: u64, who: Address)
    requires
        env.cancel_schedule(caller, id) is Ok,
        env.meta(id).escrow_id == id,
        env.meta(id).remaining_balance >= 0,
        env.meta(id).client != env.contract,
        outsider(env, who),
    ensures
        ({
            let post = env.cancel_schedule(caller, id)->Ok_0.0;
            let m = env.meta(id);
            &&& caller == m.client
            &&& m.status == EscrowStatus::Active
            &&& post.meta(id).status == EscrowStatus::Cancelled
            &&& post.meta(id).remaining_balance == 0
            &&& post.recurring(id).cancelled
            &&& post.process_recurring(id) is Err
            &&& gains(env, post, id, who) == if who == m.client {
                m.remaining_balance as int
            } else {
                0
            }
        }),
{
    broadcast use lemma_gained_push;

    lemma_access_gained(env.authed(caller), id, env.meta(id).token, who);
}

} // verus!
