//! What completes an escrow that pays on a schedule.
use vstd::prelude::*;

use crate::ledger::LedgerView;
use crate::payouts::lemma_batch_marked_kept;
use crate::recurring::Run;
use crate::types::{Address, EscrowStatus};

verus! {

/// While a schedule has payments to make, nothing that is paid beside it
/// completes its escrow: the last payment does.
#[verifier::rlimit(40)]
pub proof fn law_schedule_completes(
    env: LedgerView,
    caller: Address,
    id: u64,
    mid: u32,
    ids: Seq<u32>,
)
    requires
        env.has_meta(id),
        env.meta(id).escrow_id == id,
        env.scheduled(id),
    ensures
        env.approve(caller, id, mid) is Ok ==> env.approve(caller, id, mid)->Ok_0.0.meta(id).status
            == EscrowStatus::Active,
        env.batch_approve(caller, id, ids) is Ok ==> env.batch_approve(
            caller,
            id,
            ids,
        )->Ok_0.0.meta(id).status == EscrowStatus::Active,
        env.release(caller, id, mid) is Ok ==> env.release(caller, id, mid)->Ok_0.0.meta(id).status
            == EscrowStatus::Active,
        env.batch_release(caller, id, ids) is Ok ==> env.batch_release(
            caller,
            id,
            ids,
        )->Ok_0.0.meta(id).status == EscrowStatus::Active,
        env.timed_release(caller, id, mid) is Ok ==> env.timed_release(
            caller,
            id,
            mid,
        )->Ok_0.0.meta(id).status == EscrowStatus::Active,
        env.oracle_release(caller, id, mid) is Ok ==> env.oracle_release(
            caller,
            id,
            mid,
        )->Ok_0.0.meta(id).status == EscrowStatus::Active,
        env.process_recurring(id) is Ok ==> {
            let post = env.process_recurring(id)->Ok_0.0;
            post.meta(id).status == if post.recurring(id).payments_remaining == 0 {
                EscrowStatus::Completed
            } else {
                EscrowStatus::Active
            }
        },
{
    if env.batch_approve(caller, id, ids) is Ok {
        let (seen, m) = env.authed(caller).accessed(id)->Ok_0;
        let open = seen.unlocked(id, m.lock_time)->Ok_0.0;
        let over = open.timelock_over(id, m.timelock) is Ok;
        let base = open.timelock_seen(id, m.timelock);
        lemma_batch_marked_kept(base, caller, id, m, ids, over, ids.len());
    }
    if env.process_recurring(id) is Ok {
        let (seen, m) = env.accessed(id)->Ok_0;
        let run = Run { env: seen, m, c: seen.recurring(id), count: 0, total: 0 };
        lemma_run_named(run, id);
    }
}

/// Payments leave the header's name, its status and its freelancer alone, and what
/// they come to is what the balance loses.
pub proof fn lemma_run_named(run: Run, id: u64)
    requires
        run.paid_all(id) is Ok,
    ensures
        run.paid_all(id)->Ok_0.m.escrow_id == run.m.escrow_id,
        run.paid_all(id)->Ok_0.m.status == run.m.status,
        run.paid_all(id)->Ok_0.m.freelancer == run.m.freelancer,
        run.paid_all(id)->Ok_0.total + run.paid_all(id)->Ok_0.m.remaining_balance == run.total
            + run.m.remaining_balance,
    decreases run.c.payments_remaining,
{
    if run.due() {
        lemma_run_named(run.paid_once(id)->Ok_0, id);
    }
}

} // verus!
