//! How the terms of an escrow change: who takes part, how long it is locked, and
//! what its client accepted.
use vstd::prelude::*;

use crate::ledger::LedgerView;
use crate::parties::trades;
use crate::types::{Address, EscrowStatus, MetaView, Timelock, TokenPair};

verus! {

/// The client hands its role to somebody who has none in the escrow yet, with the
/// client's own word. Nothing else about the escrow changes.
#[verifier::rlimit(40)]
pub proof fn law_role_handed_on(env: LedgerView, id: u64, to: Address)
    requires
        !env.config.paused,
        env.accessed(id) is Ok,
        env.meta(id).escrow_id == id,
    ensures
        ({
            let r = env.transfer_client(id, to);
            let seen = env.accessed(id)->Ok_0.1;
            &&& r is Ok <==> {
                &&& env.meta(id).status == EscrowStatus::Active
                &&& to != env.meta(id).freelancer
                &&& env.meta(id).arbiter != Some(to)
            }
            &&& r is Ok ==> r->Ok_0.0.meta(id) == (MetaView { client: to, ..seen })
        }),
{
}

/// Both parties of an active escrow agree on another arbiter, or on none; it is
/// neither of them.
#[verifier::rlimit(40)]
pub proof fn law_arbiter_replaced(env: LedgerView, id: u64, arbiter: Option<Address>)
    requires
        !env.config.paused,
        env.accessed(id) is Ok,
        env.meta(id).escrow_id == id,
    ensures
        ({
            let r = env.replace_arbiter(id, arbiter);
            let seen = env.accessed(id)->Ok_0.1;
            &&& r is Ok <==> {
                &&& env.meta(id).status == EscrowStatus::Active
                &&& arbiter != Some(env.meta(id).client)
                &&& arbiter != Some(env.meta(id).freelancer)
            }
            &&& r is Ok ==> r->Ok_0.0.meta(id) == (MetaView { arbiter, ..seen })
        }),
{
}

/// The client accepts terms that are there, once, and it is on record when. Before
/// that, and where there are none, they do not count as accepted.
#[verifier::rlimit(60)]
pub proof fn law_terms_accepted(env: LedgerView, caller: Address, id: u64)
    requires
        env.config.admin is Some,
        !env.config.paused,
        env.authed(caller).accessed(id) is Ok,
        env.accessed(id) is Ok,
        env.meta(id).escrow_id == id,
    ensures
        ({
            let m = env.meta(id);
            let r = env.accept(caller, id);
            let done = env.book.terms.contains_key(id) && env.book.terms[id].accepted;
            let t = r->Ok_0.0.book.terms[id];
            &&& r is Ok <==> {
                &&& caller == m.client
                &&& m.status == EscrowStatus::Active
                &&& m.terms_hash is Some
                &&& !done
            }
            &&& r is Ok ==> {
                &&& t.accepted && t.accepted_at == Some(env.timestamp)
                &&& !env.book.terms.contains_key(id) ==> t.client == m.client && t.escrow_id == id
                    && Some(t.terms_hash) == m.terms_hash
                &&& env.book.terms.contains_key(id) ==> t.terms_hash
                    == env.book.terms[id].terms_hash
            }
            &&& m.terms_hash is None ==> env.accepted(id) is Ok && !env.accepted(id)->Ok_0.1
            &&& m.terms_hash is Some && env.accepted(id) is Ok ==> env.accepted(id)->Ok_0.1 == done
            &&& m.terms_hash is Some && done ==> env.accepted(id) is Ok
        }),
{
}

/// A timelock that a party starts lasts as long as it says, up to thirty days, and
/// counts from now. An escrow that has one keeps it.
#[verifier::rlimit(40)]
pub proof fn law_timelock_started(env: LedgerView, caller: Address, id: u64, duration: u64)
    requires
        env.config.admin is Some,
        !env.config.paused,
        !env.is_frozen(id),
        env.authed(caller).accessed(id) is Ok,
        env.meta(id).escrow_id == id,
    ensures
        ({
            let m = env.meta(id);
            let r = env.start_timelock(caller, id, duration);
            let seen = env.authed(caller).accessed(id)->Ok_0.1;
            &&& r is Ok <==> {
                &&& caller == m.client || caller == m.freelancer
                &&& m.status == EscrowStatus::Active
                &&& m.timelock is None
                &&& 0 < duration <= 2_592_000
            }
            &&& r is Ok ==> r->Ok_0.0.meta(id) == (MetaView {
                timelock: Some(
                    Timelock { duration_ledger: duration, start_ledger: env.timestamp },
                ),
                ..seen
            })
        }),
{
}

/// The client sets another lock time, in the future and no later than the escrow
/// allows.
#[verifier::rlimit(40)]
pub proof fn law_lock_extended(env: LedgerView, caller: Address, id: u64, at: u64)
    requires
        !env.config.paused,
        env.authed(caller).accessed(id) is Ok,
        env.meta(id).escrow_id == id,
    ensures
        ({
            let m = env.meta(id);
            let r = env.extend_lock(caller, id, at);
            let seen = env.authed(caller).accessed(id)->Ok_0.1;
            &&& r is Ok <==> {
                &&& caller == m.client
                &&& m.status == EscrowStatus::Active
                &&& env.timestamp < at
                &&& m.lock_time_extension matches Some(limit) ==> at <= limit
            }
            &&& r is Ok ==> r->Ok_0.0.meta(id) == (MetaView { lock_time: Some(at), ..seen })
        }),
{
}

/// The client sets a release time in the future, once.
#[verifier::rlimit(40)]
pub proof fn law_release_time_set(env: LedgerView, caller: Address, id: u64, at: u64)
    requires
        env.config.admin is Some,
        !env.config.paused,
        !env.is_frozen(id),
        env.authed(caller).accessed(id) is Ok,
        env.meta(id).escrow_id == id,
    ensures
        ({
            let r = env.set_release_time(caller, id, at);
            let post = r->Ok_0.0;
            &&& r is Ok <==> {
                &&& caller == env.meta(id).client
                &&& env.meta(id).status == EscrowStatus::Active
                &&& env.timestamp < at
                &&& !env.book.release_times.contains_key(id)
            }
            &&& r is Ok ==> {
                &&& post.book.release_times.contains_key(id)
                &&& post.book.release_times[id] == at
                &&& forall|x: u64|
                    x != id ==> (#[trigger] post.book.release_times.contains_key(x)
                        == env.book.release_times.contains_key(x))
            }
        }),
{
}

/// The client swaps a part of the balance, one for one, on a pair that the exchange
/// trades; the balance falls by what goes in.
#[verifier::rlimit(40)]
pub proof fn law_swap_does(
    env: LedgerView,
    caller: Address,
    id: u64,
    token_in: Address,
    token_out: Address,
    amount_in: i128,
    least: i128,
    pairs: Seq<TokenPair>,
)
    requires
        env.config.admin is Some,
        !env.config.paused,
        !env.is_frozen(id),
        env.authed(caller).accessed(id) is Ok,
        env.meta(id).escrow_id == id,
        env.config.dex_config == Some(pairs),
    ensures
        ({
            let m = env.meta(id);
            let r = env.swap(caller, id, token_in, token_out, amount_in, least);
            let (post, x) = r->Ok_0;
            &&& r is Ok <==> {
                &&& caller == m.client
                &&& m.status == EscrowStatus::Active
                &&& exists|i: int|
                    0 <= i < pairs.len() && (#[trigger] pairs[i]).from == token_in && pairs[i].to
                        == token_out
                &&& 0 < amount_in <= m.remaining_balance
                &&& least > 0
            }
            &&& r is Ok ==> {
                &&& post.meta(id).remaining_balance == m.remaining_balance - amount_in
                &&& post.meta(id).status == m.status
                &&& post.book.dex_swaps.contains_key(id)
                &&& post.book.dex_swaps[id] == x
                &&& x.escrow_id == id && x.token_in == token_in && x.token_out == token_out
                &&& x.amount_in == amount_in && x.min_amount_out == least
                &&& x.amount_out == Some(amount_in) && x.success
                &&& x.swapped_at == Some(env.timestamp)
            }
        }),
{
    if trades(pairs, token_in, token_out) {
        let i = choose|i: int|
            0 <= i < pairs.len() && pairs[i] == (TokenPair { from: token_in, to: token_out });
        assert(pairs[i].from == token_in);
    }
}

/// The admin sets the arbiter's part of an escrow, up to the whole, and changes
/// nothing else about it.
pub proof fn law_arbiter_fee_set(env: LedgerView, caller: Address, id: u64, bps: u32)
    requires
        env.has_meta(id),
        env.meta(id).escrow_id == id,
    ensures
        env.set_arbiter_fee(caller, id, bps) is Ok <==> env.config.admin == Some(caller) && bps
            <= 10_000,
        env.set_arbiter_fee(caller, id, bps) is Ok ==> env.set_arbiter_fee(
            caller,
            id,
            bps,
        )->Ok_0.0.meta(id) == (MetaView { arbiter_fee_bps: bps, ..env.meta(id) }),
{
}

} // verus!
