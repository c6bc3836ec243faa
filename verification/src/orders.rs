//! What does not depend on an order, or on doing things one by one.
use vstd::prelude::*;

use crate::batches::{batch_sum, lemma_batch_sum_pos};
use crate::constants::{MAX_ESCROW_AMOUNT, MAX_STRING_LEN};
use crate::errors::EscrowError;
use crate::events::EffectView;
use crate::funds::{brings, gained, lemma_gained_push};
use crate::ledger::{BookView, LedgerView, Outcome};
use crate::milestones::fresh_milestone;
use crate::multisig::{needs_several, no_repeats, policy_check, weight_sum, workable};
use crate::rent::lemma_settled_once;
use crate::storage::{rent_periods, reserve};
use crate::types::{Address, EscrowStatus, Hash32, MetaView, MultisigView, PackedDataKey};

verus! {

/// The approvers of a policy, each with its weight.
pub open spec fn pairs(c: MultisigView) -> Seq<(u64, u32)> {
    Seq::new(c.approvers.len(), |i: int| (c.approvers[i], c.weights[i]))
}

/// The sum of what a measure gives for each pair.
spec fn total(p: Seq<(u64, u32)>, f: spec_fn((u64, u32)) -> nat) -> nat
    decreases p.len(),
{
    if p.len() == 0 {
        0
    } else {
        total(p.drop_last(), f) + f(p.last())
    }
}

/// A pair that is taken out takes its measure along.
proof fn lemma_total_remove(p: Seq<(u64, u32)>, f: spec_fn((u64, u32)) -> nat, i: int)
    requires
        0 <= i < p.len(),
    ensures
        total(p, f) == total(p.remove(i), f) + f(p[i]),
    decreases p.len(),
{
    if i == p.len() - 1 {
        assert(p.remove(i) =~= p.drop_last());
    } else {
        lemma_total_remove(p.drop_last(), f, i);
        assert(p.remove(i).drop_last() =~= p.drop_last().remove(i));
        assert(p.remove(i).last() == p.last());
    }
}

/// The same pairs in another order have the same sum.
proof fn lemma_total_reordered(
    p: Seq<(u64, u32)>,
    q: Seq<(u64, u32)>,
    f: spec_fn((u64, u32)) -> nat,
)
    requires
        p.to_multiset() == q.to_multiset(),
    ensures
        total(p, f) == total(q, f),
    decreases p.len(),
{
    broadcast use vstd::seq_lib::group_to_multiset_ensures;

    assert(p.len() == p.to_multiset().len());
    assert(q.len() == q.to_multiset().len());
    if p.len() > 0 {
        let x = p.last();
        assert(p.contains(x));
        assert(q.to_multiset().count(x) > 0);
        assert(q.contains(x));
        let i = choose|i: int| 0 <= i < q.len() && q[i] == x;
        lemma_total_remove(q, f, i);
        let last = (p.len() - 1) as int;
        assert(p.remove(last) =~= p.drop_last());
        assert(p.remove(last).to_multiset() =~= p.to_multiset().remove(x));
        assert(q.remove(i).to_multiset() =~= q.to_multiset().remove(x));
        lemma_total_reordered(p.drop_last(), q.remove(i), f);
    } else {
        assert(q.len() == 0);
    }
}

/// A sum is at least what two of its places give, and nothing where no place
/// gives anything.
proof fn lemma_total_bounds(p: Seq<(u64, u32)>, f: spec_fn((u64, u32)) -> nat)
    ensures
        forall|i: int| 0 <= i < p.len() ==> f(#[trigger] p[i]) <= total(p, f),
        forall|i: int, j: int|
            0 <= i < j < p.len() ==> f(#[trigger] p[i]) + f(#[trigger] p[j]) <= total(p, f),
        (forall|i: int| 0 <= i < p.len() ==> f(#[trigger] p[i]) == 0) ==> total(p, f) == 0,
    decreases p.len(),
{
    if p.len() > 0 {
        let d = p.drop_last();
        lemma_total_bounds(d, f);
        assert forall|i: int| 0 <= i < p.len() implies f(#[trigger] p[i]) <= total(p, f) by {
            if i < d.len() {
                assert(d[i] == p[i]);
            }
        }
        assert forall|i: int, j: int| 0 <= i < j < p.len() implies f(#[trigger] p[i]) + f(
            #[trigger] p[j],
        ) <= total(p, f) by {
            assert(d[i] == p[i]);
            if j < d.len() {
                assert(d[j] == p[j]);
            }
        }
        if forall|i: int| 0 <= i < p.len() ==> f(#[trigger] p[i]) == 0 {
            assert forall|i: int| 0 <= i < d.len() implies f(#[trigger] d[i]) == 0 by {
                assert(d[i] == p[i]);
            }
        }
    }
}

/// Without repeats nobody occurs more than once.
proof fn lemma_occurs_once(p: Seq<(u64, u32)>, who: u64)
    requires
        forall|i: int, j: int| 0 <= i < j < p.len() ==> (#[trigger] p[i]).0 != (#[trigger] p[j]).0,
    ensures
        total(p, |x: (u64, u32)| if x.0 == who { 1nat } else { 0nat }) <= 1,
    decreases p.len(),
{
    let f = |x: (u64, u32)| if x.0 == who { 1nat } else { 0nat };
    if p.len() > 0 {
        let d = p.drop_last();
        assert forall|i: int, j: int| 0 <= i < j < d.len() implies (#[trigger] d[i]).0 != (
        #[trigger] d[j]).0 by {
            assert(d[i] == p[i] && d[j] == p[j]);
        }
        lemma_occurs_once(d, who);
        if p.last().0 == who {
            assert forall|i: int| 0 <= i < d.len() implies f(#[trigger] d[i]) == 0 by {
                assert(d[i] == p[i]);
                assert(p[i].0 != p[p.len() - 1].0);
            }
            lemma_total_bounds(d, f);
        }
    }
}

/// The sum of the weights, over the pairs.
proof fn lemma_weight_total(c: MultisigView)
    requires
        c.weights.len() == c.approvers.len(),
    ensures
        weight_sum(c.weights) == total(pairs(c), |x: (u64, u32)| x.1 as nat),
    decreases c.weights.len(),
{
    if c.weights.len() > 0 {
        let d = MultisigView {
            approvers: c.approvers.drop_last(),
            weights: c.weights.drop_last(),
            ..c
        };
        lemma_weight_total(d);
        assert(pairs(c).drop_last() =~= pairs(d));
    }
}

/// A workable policy stays so in another order, and needs several if it did.
proof fn lemma_reordered(c: MultisigView, d: MultisigView)
    requires
        c.weights.len() == c.approvers.len(),
        d.weights.len() == d.approvers.len(),
        d.threshold == c.threshold,
        pairs(c).to_multiset() == pairs(d).to_multiset(),
    ensures
        d.approvers.len() == c.approvers.len(),
        workable(c) ==> workable(d),
        needs_several(c) ==> needs_several(d),
{
    broadcast use vstd::seq_lib::group_to_multiset_ensures;

    let p = pairs(c);
    let q = pairs(d);
    assert(p.len() == p.to_multiset().len());
    assert(q.len() == q.to_multiset().len());
    let weight = |x: (u64, u32)| x.1 as nat;
    lemma_weight_total(c);
    lemma_weight_total(d);
    lemma_total_reordered(p, q, weight);
    if workable(c) {
        if !no_repeats(d.approvers) {
            let (i, j) = choose|i: int, j: int|
                0 <= i < j < d.approvers.len() && (#[trigger] d.approvers[i]) == (
                #[trigger] d.approvers[j]);
            let who = d.approvers[i];
            let is_who = |x: (u64, u32)| if x.0 == who { 1nat } else { 0nat };
            assert forall|i: int, j: int| 0 <= i < j < p.len() implies (#[trigger] p[i]).0 != (
            #[trigger] p[j]).0 by {
                assert(c.approvers[i] != c.approvers[j]);
            }
            lemma_occurs_once(p, who);
            lemma_total_reordered(p, q, is_who);
            lemma_total_bounds(q, is_who);
            assert(is_who(q[i]) + is_who(q[j]) == 2);
        }
        let idle = |x: (u64, u32)| if x.1 == 0 { 1nat } else { 0nat };
        assert forall|i: int| 0 <= i < p.len() implies idle(#[trigger] p[i]) == 0 by {
            assert(c.weights[i] > 0);
        }
        lemma_total_bounds(p, idle);
        lemma_total_reordered(p, q, idle);
        lemma_total_bounds(q, idle);
        assert forall|i: int| 0 <= i < d.weights.len() implies (#[trigger] d.weights[i]) > 0 by {
            assert(idle(q[i]) == 0);
        }
    }
    if needs_several(c) {
        let alone = |x: (u64, u32)| if x.1 >= c.threshold { 1nat } else { 0nat };
        assert forall|i: int| 0 <= i < p.len() implies alone(#[trigger] p[i]) == 0 by {
            assert(c.weights[i] < c.threshold);
        }
        lemma_total_bounds(p, alone);
        lemma_total_reordered(p, q, alone);
        lemma_total_bounds(q, alone);
        assert forall|i: int| 0 <= i < d.weights.len() implies (#[trigger] d.weights[i])
            < d.threshold by {
            assert(alone(q[i]) == 0);
        }
    }
}

/// The verdict on a policy does not depend on the order in which its approvers
/// stand, each with its weight.
pub proof fn law_policy_in_any_order(c: MultisigView, d: MultisigView)
    requires
        c.weights.len() == c.approvers.len(),
        d.weights.len() == d.approvers.len(),
        d.threshold == c.threshold,
        pairs(c).to_multiset() == pairs(d).to_multiset(),
    ensures
        policy_check(c) == policy_check(d),
{
    lemma_reordered(c, d);
    lemma_reordered(d, c);
}

/// Adds the first `k` of several milestones, one request after the other.
pub open spec fn added_singly(
    env: LedgerView,
    caller: Address,
    id: u64,
    titles: Seq<Seq<u8>>,
    hashes: Seq<Hash32>,
    amounts: Seq<i128>,
    k: nat,
) -> Outcome<u32>
    decreases k,
{
    if k == 0 {
        Ok((env, 0u32))
    } else {
        match added_singly(env, caller, id, titles, hashes, amounts, (k - 1) as nat) {
            Err(e) => Err(e),
            Ok((before, _)) => before.add_milestone(
                caller,
                id,
                titles[k - 1],
                hashes[k - 1],
                amounts[k - 1],
            ),
        }
    }
}

/// What a batch comes to up to some place is no more than the whole of it.
proof fn lemma_sum_prefix(titles: Seq<Seq<u8>>, amounts: Seq<i128>, k: nat, n: nat)
    requires
        k <= n,
        batch_sum(titles, amounts, n) is Ok,
    ensures
        batch_sum(titles, amounts, k) is Ok,
        batch_sum(titles, amounts, k)->Ok_0 <= batch_sum(titles, amounts, n)->Ok_0,
    decreases n,
{
    if k < n {
        lemma_sum_prefix(titles, amounts, k, (n - 1) as nat);
    }
}

/// The header of an escrow with the first `k` of several milestones added.
spec fn grown_meta(m: MetaView, titles: Seq<Seq<u8>>, amounts: Seq<i128>, k: nat) -> MetaView {
    MetaView {
        milestone_count: (m.milestone_count + k) as u32,
        allocated_amount: (m.allocated_amount + batch_sum(titles, amounts, k)->Ok_0) as i128,
        rent_balance: (m.rent_balance + reserve(k as int)) as i128,
        ..m
    }
}

/// A milestone more, on an escrow that owes no rent.
proof fn lemma_one_more(
    env: LedgerView,
    caller: Address,
    id: u64,
    title: Seq<u8>,
    hash: Hash32,
    amount: i128,
)
    requires
        !env.config.paused,
        !env.is_frozen(id),
        env.has_meta(id),
        ({
            let m = env.meta(id);
            &&& m.escrow_id == id
            &&& rent_periods(env.timestamp, m.last_rent_collection_at) == 0
            &&& m.client == caller
            &&& m.status == EscrowStatus::Active
            &&& m.milestone_count < env.milestone_cap()
            &&& m.allocated_amount + amount <= m.total_amount
            &&& m.allocated_amount + amount <= m.allotted_amount
            &&& m.rent_balance + reserve(1) <= i128::MAX
        }),
        0 < amount <= MAX_ESCROW_AMOUNT,
        title.len() <= MAX_STRING_LEN,
    ensures
        ({
            let m = env.meta(id);
            let r = env.add_milestone(caller, id, title, hash, amount);
            let post = MetaView {
                milestone_count: (m.milestone_count + 1) as u32,
                allocated_amount: (m.allocated_amount + amount) as i128,
                rent_balance: (m.rent_balance + reserve(1)) as i128,
                ..m
            };
            let mark = fresh_milestone(m.milestone_count, title, hash, amount, None);
            &&& r is Ok
            &&& r->Ok_0.1 == m.milestone_count
            &&& r->Ok_0.0.config == env.config
            &&& r->Ok_0.0.timestamp == env.timestamp
            &&& r->Ok_0.0.contract == env.contract
            &&& r->Ok_0.0.book == env.saved_milestone(id, mark).saved_meta(post).book
            &&& forall|token: Address, who: Address| #[trigger]
                gained(r->Ok_0.0.log, token, who) == gained(env.log, token, who) + brings(
                    EffectView::Transfer {
                        token: m.token,
                        from: caller,
                        to: env.contract,
                        amount: reserve(1) as i128,
                    },
                    token,
                    who,
                )
        }),
{
    broadcast use lemma_gained_push;

    let asked = env.authed(caller);
    let m = env.meta(id);
    assert(asked.accessed(id) == Ok::<(LedgerView, MetaView), EscrowError>(
        (asked.saved_meta(m), m),
    ));
    assert(asked.book.metas.insert(PackedDataKey::EscrowMeta(id), m) =~= asked.book.metas);
}

/// What adding milestones one by one comes to, up to some place.
#[verifier::rlimit(40)]
proof fn lemma_added_singly(
    env: LedgerView,
    caller: Address,
    id: u64,
    titles: Seq<Seq<u8>>,
    hashes: Seq<Hash32>,
    amounts: Seq<i128>,
    k: nat,
)
    requires
        env.sound(),
        env.has_meta(id) ==> env.meta(id).allocated_amount >= 0,
        env.batch_add(caller, id, titles, hashes, amounts) is Ok,
        0 < k <= titles.len(),
    ensures
        ({
            let (seen, m) = env.authed(caller).accessed(id)->Ok_0;
            let r = added_singly(env, caller, id, titles, hashes, amounts, k);
            let post = r->Ok_0.0;
            let saved = seen.batch_saved(id, m.milestone_count, titles, hashes, amounts, k);
            &&& r is Ok
            &&& r->Ok_0.1 == m.milestone_count + k - 1
            &&& post.config == env.config
            &&& post.timestamp == env.timestamp
            &&& post.contract == env.contract
            &&& post.book == saved.saved_meta(grown_meta(m, titles, amounts, k)).book
            &&& forall|token: Address, who: Address| #[trigger]
                gained(post.log, token, who) == gained(seen.log, token, who) + brings(
                    EffectView::Transfer {
                        token: m.token,
                        from: caller,
                        to: env.contract,
                        amount: reserve(k as int) as i128,
                    },
                    token,
                    who,
                )
        }),
    decreases k,
{
    broadcast use lemma_gained_push;

    let n = titles.len();
    let asked = env.authed(caller);
    let (seen, m) = asked.accessed(id)->Ok_0;
    assert(env.book.metas.contains_key(PackedDataKey::EscrowMeta(id)));
    lemma_settled_once(asked, asked.meta(id));
    assert(m.escrow_id == id && m.total_amount <= MAX_ESCROW_AMOUNT);
    assert(m.allocated_amount >= 0);
    lemma_sum_prefix(titles, amounts, k, n);
    lemma_sum_prefix(titles, amounts, (k - 1) as nat, n);
    lemma_batch_sum_pos(titles, amounts, (k - 1) as nat);
    lemma_saved_book(seen, id, m.milestone_count, titles, hashes, amounts, k);
    lemma_saved_book(seen, id, m.milestone_count, titles, hashes, amounts, (k - 1) as nat);
    let key = PackedDataKey::EscrowMeta(id);
    if k == 1 {
        assert(seen.batch_saved(id, m.milestone_count, titles, hashes, amounts, 0) == seen);
        assert(batch_sum(titles, amounts, 0) == Ok::<i128, EscrowError>(0));
        assert(added_singly(env, caller, id, titles, hashes, amounts, 0) == Ok::<
            (LedgerView, u32),
            EscrowError,
        >((env, 0u32)));
        let r = env.add_milestone(caller, id, titles[0], hashes[0], amounts[0]);
        assert(r is Ok);
        assert(seen.book.metas.insert(key, m) =~= seen.book.metas);
    } else {
        lemma_added_singly(env, caller, id, titles, hashes, amounts, (k - 1) as nat);
        let before = added_singly(
            env,
            caller,
            id,
            titles,
            hashes,
            amounts,
            (k - 1) as nat,
        )->Ok_0.0;
        let m1 = grown_meta(m, titles, amounts, (k - 1) as nat);
        assert(before.meta(id) == m1);
        lemma_one_more(before, caller, id, titles[k - 1], hashes[k - 1], amounts[k - 1]);
        let post = before.add_milestone(
            caller,
            id,
            titles[k - 1],
            hashes[k - 1],
            amounts[k - 1],
        )->Ok_0.0;
        assert(post.book.metas =~= seen.book.metas.insert(key, grown_meta(m, titles, amounts, k)));
    }
}

/// Writing the milestones of a batch touches nothing but milestones.
proof fn lemma_saved_book(
    env: LedgerView,
    id: u64,
    first: u32,
    titles: Seq<Seq<u8>>,
    hashes: Seq<Hash32>,
    amounts: Seq<i128>,
    k: nat,
)
    ensures
        ({
            let post = env.batch_saved(id, first, titles, hashes, amounts, k);
            &&& post.book == (BookView {
                milestones: post.book.milestones,
                ..env.book
            })
            &&& post.config == env.config
            &&& post.timestamp == env.timestamp
            &&& post.contract == env.contract
        }),
    decreases k,
{
    if k > 0 {
        lemma_saved_book(env, id, first, titles, hashes, amounts, (k - 1) as nat);
    }
}

/// What is told of the milestones of a batch moves no money.
proof fn lemma_saved_gained(
    env: LedgerView,
    id: u64,
    first: u32,
    titles: Seq<Seq<u8>>,
    hashes: Seq<Hash32>,
    amounts: Seq<i128>,
    k: nat,
    token: Address,
    who: Address,
)
    ensures
        gained(env.batch_saved(id, first, titles, hashes, amounts, k).log, token, who) == gained(
            env.log,
            token,
            who,
        ),
    decreases k,
{
    broadcast use lemma_gained_push;

    if k > 0 {
        lemma_saved_gained(env, id, first, titles, hashes, amounts, (k - 1) as nat, token, who);
    }
}

/// Where a batch begins makes no difference to what is written.
proof fn lemma_saved_milestones(
    a: LedgerView,
    b: LedgerView,
    id: u64,
    first: u32,
    titles: Seq<Seq<u8>>,
    hashes: Seq<Hash32>,
    amounts: Seq<i128>,
    k: nat,
)
    requires
        a.book == b.book,
    ensures
        a.batch_saved(id, first, titles, hashes, amounts, k).book == b.batch_saved(
            id,
            first,
            titles,
            hashes,
            amounts,
            k,
        ).book,
    decreases k,
{
    if k > 0 {
        lemma_saved_milestones(a, b, id, first, titles, hashes, amounts, (k - 1) as nat);
    }
}

/// Adding a batch of milestones is adding them one by one: each is granted, with
/// the ids in order, the entries end up the same, and everybody has paid the same.
#[verifier::rlimit(40)]
pub proof fn law_batch_adds_each(
    env: LedgerView,
    caller: Address,
    id: u64,
    titles: Seq<Seq<u8>>,
    hashes: Seq<Hash32>,
    amounts: Seq<i128>,
    k: nat,
    token: Address,
    who: Address,
)
    requires
        env.sound(),
        env.has_meta(id) ==> env.meta(id).allocated_amount >= 0,
        env.batch_add(caller, id, titles, hashes, amounts) is Ok,
        0 < k <= titles.len(),
    ensures
        ({
            let (post, first) = env.batch_add(caller, id, titles, hashes, amounts)->Ok_0;
            let part = added_singly(env, caller, id, titles, hashes, amounts, k);
            let all = added_singly(env, caller, id, titles, hashes, amounts, titles.len());
            &&& first == env.meta(id).milestone_count
            &&& part is Ok
            &&& part->Ok_0.1 == first + k - 1
            &&& all is Ok
            &&& all->Ok_0.0.book == post.book
            &&& all->Ok_0.0.config == post.config
            &&& gained(all->Ok_0.0.log, token, who) == gained(post.log, token, who)
        }),
{
    broadcast use lemma_gained_push;

    let n = titles.len();
    lemma_added_singly(env, caller, id, titles, hashes, amounts, k);
    lemma_added_singly(env, caller, id, titles, hashes, amounts, n);
    let (seen, m) = env.authed(caller).accessed(id)->Ok_0;
    let charged = seen.charged(m.token, caller, reserve(n as int) as i128);
    lemma_saved_milestones(seen, charged, id, m.milestone_count, titles, hashes, amounts, n);
    lemma_saved_book(charged, id, m.milestone_count, titles, hashes, amounts, n);
    lemma_saved_gained(
        charged,
        id,
        m.milestone_count,
        titles,
        hashes,
        amounts,
        n,
        token,
        who,
    );
}

} // verus!
