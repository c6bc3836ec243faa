//! What observers are told of a request: that it happened, and what it came to.
use vstd::prelude::*;

use crate::creation::NewEscrow;
use crate::endings::lemma_run_named;
use crate::events::{EffectView, Event};
use crate::ledger::{LedgerView, Outcome};
use crate::recurring::Run;
use crate::types::{Address, Hash32, MS_PENDING, MS_SUBMITTED};

verus! {

/// A request that is granted ends with telling observers this.
pub open spec fn ends_with<T>(r: Outcome<T>, x: EffectView) -> bool {
    r is Ok ==> r->Ok_0.0.log.len() > 0 && r->Ok_0.0.log.last() == x
}

/// The same without a text or a list.
pub open spec fn tells<T>(r: Outcome<T>, event: Event) -> bool {
    ends_with(r, EffectView::Publish(event))
}

/// The one before the last thing that a granted request asks of the host.
pub open spec fn before_last<T>(r: Outcome<T>, event: Event) -> bool {
    let log = r->Ok_0.0.log;
    r is Ok ==> log.len() > 1 && log[log.len() - 2] == EffectView::Publish(event)
}

/// Observers learn of a new escrow, with its parties and its amount.
pub proof fn law_creation_told(env: LedgerView, a: NewEscrow, pays: bool)
    ensures
        tells(
            env.created_from(a, pays),
            Event::EscrowCreated {
                escrow_id: env.config.escrow_counter,
                client: a.client,
                freelancer: a.freelancer,
                amount: a.total_amount,
            },
        ),
{
}

/// Observers learn what happens to a milestone, and who does it.
#[verifier::rlimit(40)]
pub proof fn law_work_told(
    env: LedgerView,
    caller: Address,
    id: u64,
    mid: u32,
    title: Seq<u8>,
    hash: Hash32,
    amount: i128,
)
    ensures
        tells(
            env.add_milestone(caller, id, title, hash, amount),
            Event::MilestoneAdded {
                escrow_id: id,
                milestone_id: env.meta(id).milestone_count,
                amount,
            },
        ),
        ends_with(
            env.retitle(caller, id, mid, title),
            EffectView::PublishText(
                Event::MilestoneTitleUpdated { escrow_id: id, milestone_id: mid },
                title,
            ),
        ),
        tells(
            env.submit(caller, id, mid),
            Event::MilestoneSubmitted { escrow_id: id, milestone_id: mid, by: caller },
        ),
        tells(
            env.reject(caller, id, mid),
            Event::MilestoneRejected { escrow_id: id, milestone_id: mid, by: caller },
        ),
        tells(
            env.reject_with_reason(caller, id, mid, hash),
            Event::MilestoneRejectedWithReason {
                escrow_id: id,
                milestone_id: mid,
                by: caller,
                reason: hash,
            },
        ),
{
}

/// Of a deadline that moves, observers learn where it stood and where it stands;
/// nobody is told of one that stays.
#[verifier::rlimit(40)]
pub proof fn law_deadline_told(env: LedgerView, caller: Address, id: u64, mid: u32, d: u64)
    requires
        env.submit(caller, id, mid) is Ok,
        env.meta(id).escrow_id == id,
        env.meta(id).deadline == Some(d),
        env.timestamp + 604_800 <= u64::MAX,
    ensures
        ({
            let r = env.submit(caller, id, mid);
            let now = env.timestamp;
            let seen = env.authed(caller).accessed(id)->Ok_0.0.log.len();
            let moved = now < d && d - now < 604_800 && (env.meta(id).lock_time is None || now
                + 604_800 < env.meta(id).lock_time->Some_0);
            &&& moved ==> before_last(
                r,
                Event::DeadlineExtended {
                    escrow_id: id,
                    old_deadline: d,
                    new_deadline: (now + 604_800) as u64,
                },
            )
            &&& r->Ok_0.0.log.len() == seen + if moved {
                2int
            } else {
                1
            }
        }),
{
}

/// Of a cancelled escrow observers learn what each side got, and that it adds up to
/// what was left.
#[verifier::rlimit(40)]
pub proof fn law_cancel_told(env: LedgerView, caller: Address, id: u64)
    requires
        env.cancel(caller, id) is Ok,
    ensures
        exists|payout: i128, refund: i128, fee: i128|
            {
                &&& #[trigger] before_last(
                    env.cancel(caller, id),
                    Event::CancellationBreakdown {
                        escrow_id: id,
                        freelancer_payout: payout,
                        client_refund: refund,
                        fee,
                    },
                )
                &&& tells(
                    env.cancel(caller, id),
                    Event::EscrowCancelled { escrow_id: id, refund },
                )
                &&& payout + refund + fee == env.meta(id).remaining_balance
                &&& payout == crate::cancelling::approved_worth(
                    env,
                    id,
                    env.meta(id).milestone_count as nat,
                )
            },
{
    let (seen, m) = env.authed(caller).accessed(id)->Ok_0;
    let fee = seen.cancel_fee(id, m)->Ok_0;
    let payout = seen.approved_due(id, m.milestone_count as nat)->Ok_0;
    let refund = (m.remaining_balance - fee - payout) as i128;
    crate::cancelling::lemma_approved_worth(env, seen, id, m.milestone_count as nat);
    assert(before_last(
        env.cancel(caller, id),
        Event::CancellationBreakdown {
            escrow_id: id,
            freelancer_payout: payout,
            client_refund: refund,
            fee,
        },
    ));
}

/// Observers learn who asks to cancel, until when the other party may object, what
/// that party says, and what each side ends up with.
#[verifier::rlimit(60)]
pub proof fn law_cancellations_told(env: LedgerView, caller: Address, id: u64, reason: Seq<u8>)
    requires
        env.timestamp + 120_960 <= u64::MAX,
        env.meta(id).remaining_balance >= 0,
    ensures
        ends_with(
            env.ask_cancellation(caller, id, reason),
            EffectView::PublishText(
                Event::CancellationRequested {
                    escrow_id: id,
                    by: caller,
                    dispute_deadline: (env.timestamp + 120_960) as u64,
                },
                reason,
            ),
        ),
        tells(
            env.agree_cancellation(caller, id),
            Event::CancellationApproved { escrow_id: id, by: caller },
        ),
        tells(
            env.object_cancellation(caller, id),
            Event::DisputeRaised { escrow_id: id, by: caller },
        ),
        ({
            let b = env.meta(id).remaining_balance as int;
            tells(
                env.execute_cancellation(id),
                Event::CancellationExecuted {
                    escrow_id: id,
                    requester_amount: (b - b / 10) as i128,
                    slash_amount: (b / 10) as i128,
                },
            )
        }),
{
}

/// Observers learn of a held amount that it is handed over, disputed or decided on,
/// and how much it is.
#[verifier::rlimit(40)]
pub proof fn law_slashes_told(env: LedgerView, caller: Address, id: u64, upheld: bool)
    ensures
        ({
            let s = env.book.slashes[id];
            &&& ends_with(
                env.finalize(id),
                EffectView::PublishText(
                    Event::SlashApplied {
                        escrow_id: id,
                        slashed_user: s.slashed_user,
                        recipient: s.recipient,
                        amount: s.amount,
                    },
                    s.reason,
                ),
            )
            &&& tells(
                env.object_slash(caller, id),
                Event::SlashDisputed { escrow_id: id, by: caller, amount: s.amount },
            )
            &&& tells(
                env.resolve_slash(caller, id, upheld),
                Event::SlashDisputeResolved { escrow_id: id, upheld, amount: s.amount },
            )
        }),
{
}

/// Observers learn who raises a dispute, over which milestone if over one that is
/// still open, and what each party gets once it is over.
#[verifier::rlimit(60)]
pub proof fn law_disputes_told(
    env: LedgerView,
    caller: Address,
    id: u64,
    mid: u32,
    a: i128,
    b: i128,
)
    requires
        env.meta(id).remaining_balance >= 0,
    ensures
        tells(env.raise(caller, id, None), Event::DisputeRaised { escrow_id: id, by: caller }),
        env.milestone(id, mid).status == MS_PENDING || env.milestone(id, mid).status == MS_SUBMITTED
            ==> tells(
            env.raise(caller, id, Some(mid)),
            Event::MilestoneDisputed { escrow_id: id, milestone_id: mid, by: caller },
        ),
        tells(env.claim_timeout(caller, id), Event::EscrowCompleted { escrow_id: id }),
        ({
            let left = env.meta(id).remaining_balance as int;
            before_last(
                env.claim_timeout(caller, id),
                Event::DisputeTimeoutClaimed {
                    escrow_id: id,
                    by: caller,
                    client_amount: (left / 2) as i128,
                    freelancer_amount: (left - left / 2) as i128,
                },
            )
        }),
        env.resolve(caller, id, a, b) is Ok ==> {
            let log = env.resolve(caller, id, a, b)->Ok_0.0.log;
            &&& log.len() >= 3
            &&& log[log.len() - 3] == EffectView::Publish(
                Event::DisputeResolved {
                    escrow_id: id,
                    client_amount: a,
                    freelancer_amount: b,
                },
            )
        },
{
}

/// Observers learn who changes the terms of an escrow, and how.
#[verifier::rlimit(60)]
pub proof fn law_terms_told(
    env: LedgerView,
    caller: Address,
    id: u64,
    x: Address,
    arbiter: Option<Address>,
    at: u64,
    amount: i128,
)
    ensures
        tells(
            env.transfer_client(id, x),
            Event::ClientRoleTransferred {
                escrow_id: id,
                old_client: env.meta(id).client,
                new_client: x,
            },
        ),
        tells(env.replace_arbiter(id, arbiter), Event::ArbiterUpdated { escrow_id: id, arbiter }),
        tells(env.accept(caller, id), Event::TermsAccepted { escrow_id: id, client: caller }),
        tells(
            env.start_timelock(caller, id, at),
            Event::TimelockStarted { escrow_id: id, duration: at, start: env.timestamp },
        ),
        tells(
            env.set_release_time(caller, id, at),
            Event::TimelockReleaseTimeSet { escrow_id: id, by: caller, release_time: at },
        ),
        tells(
            env.extend_lock(caller, id, at),
            Event::LockTimeExtended {
                escrow_id: id,
                old_lock_time: if env.meta(id).lock_time is Some {
                    env.meta(id).lock_time->Some_0
                } else {
                    0
                },
                new_lock_time: at,
                by: caller,
            },
        ),
        tells(
            env.withdraw_rent(caller, id, amount),
            Event::RentWithdrawn { escrow_id: id, to: caller, amount },
        ),
{
}

/// Observers learn what becomes of a payment schedule.
#[verifier::rlimit(40)]
pub proof fn law_schedules_told(env: LedgerView, caller: Address, id: u64)
    requires
        env.meta(id).escrow_id == id,
    ensures
        tells(
            env.pause_schedule(caller, id),
            Event::RecurringSchedulePaused { escrow_id: id, by: caller },
        ),
        tells(
            env.cancel_schedule(caller, id),
            Event::RecurringScheduleCancelled {
                escrow_id: id,
                by: caller,
                refund: env.meta(id).remaining_balance,
            },
        ),
        env.process_recurring(id) is Ok ==> {
            let (post, n) = env.process_recurring(id)->Ok_0;
            let (was, is) = (env.meta(id).remaining_balance, post.meta(id).remaining_balance);
            let released = (was - is) as i128;
            let c = post.recurring(id);
            &&& before_last(
                env.process_recurring(id),
                Event::RecurringPaymentsProcessed {
                    escrow_id: id,
                    count: n,
                    released,
                    next_due: if c.payments_remaining == 0 {
                        None
                    } else {
                        Some(c.next_payment_at)
                    },
                },
            )
            &&& tells(
                env.process_recurring(id),
                Event::FundsReleased {
                    escrow_id: id,
                    to: env.meta(id).freelancer,
                    amount: released,
                },
            )
        },
{
    if env.process_recurring(id) is Ok {
        let (seen, m) = env.accessed(id)->Ok_0;
        let run = Run { env: seen, m, c: seen.recurring(id), count: 0, total: 0 };
        lemma_run_named(run, id);
    }
}

/// Observers learn of what the admin changes, and of who takes over from whom.
pub proof fn law_governing_told(
    env: LedgerView,
    caller: Address,
    x: Address,
    count: u32,
    enabled: bool,
)
    ensures
        tells(env.initialize(x), Event::AdminInitialized { admin: x }),
        tells(env.propose_admin(caller, x), Event::AdminProposed { by: caller, new_admin: x }),
        env.config.admin matches Some(old_admin) ==> tells(
            env.accept_admin(caller),
            Event::AdminChanged { old_admin, new_admin: caller },
        ),
        tells(env.set_max_milestones(caller, count), Event::MaxMilestonesSet { new_max: count }),
        tells(
            env.add_approved_token(caller, x),
            Event::TokenWhitelistAdded { by: caller, token: x },
        ),
        tells(
            env.remove_approved_token(caller, x),
            Event::TokenWhitelistRemoved { by: caller, token: x },
        ),
        tells(
            env.set_token_whitelist_enabled(caller, enabled),
            Event::TokenWhitelistSet { by: caller, enabled },
        ),
        !env.config.paused ==> tells(
            env.set_paused(caller, true),
            Event::ContractPaused { by: caller },
        ),
        env.config.paused ==> tells(
            env.set_paused(caller, false),
            Event::ContractUnpaused { by: caller },
        ),
{
}

/// Observers learn which escrow is frozen or thawed, when, and who was presented.
pub proof fn law_freezing_told(env: LedgerView, id: u64, presented: Seq<u64>)
    ensures
        ends_with(
            env.set_frozen(id, presented, true),
            EffectView::PublishIds(
                Event::EscrowFrozen {
                    escrow_id: id,
                    sequence: env.sequence,
                    timestamp: env.timestamp,
                },
                presented,
            ),
        ),
        ends_with(
            env.set_frozen(id, presented, false),
            EffectView::PublishIds(
                Event::EscrowUnfrozen {
                    escrow_id: id,
                    sequence: env.sequence,
                    timestamp: env.timestamp,
                },
                presented,
            ),
        ),
{
}

} // verus!
