//! What rent and fees come to, and who pays them.
use vstd::prelude::*;

use crate::fees::{default_tiers, selected_bps, usable_tiers};
use crate::funds::{gained, lemma_gained_push};
use crate::gains::{gains, outsider};
use crate::ledger::LedgerView;
use crate::types::{Address, EscrowFeeSnapshot, FeeTier, MetaView, PackedDataKey};

verus! {

/// How many whole days have passed since rent was last collected for an escrow.
pub open spec fn days(env: LedgerView, id: u64) -> int {
    let last = env.meta(id).last_rent_collection_at;
    if env.timestamp <= last {
        0
    } else {
        (env.timestamp - last) / 86_400
    }
}

/// What an escrow costs a day: one for its header, one for each milestone, and one
/// each for a payment schedule, an open cancellation and a slash.
pub open spec fn daily(env: LedgerView, id: u64) -> int {
    let one = |x: bool|
        if x {
            1int
        } else {
            0
        };
    1 + env.meta(id).milestone_count + one(
        env.book.recurring.contains_key(PackedDataKey::RecurringConfig(id)),
    ) + one(env.book.cancellations.contains_key(id)) + one(env.book.slashes.contains_key(id))
}

proof fn lemma_covered(days: int, per: int, balance: int)
    requires
        days >= 0,
        per >= 1,
        balance >= 0,
    ensures
        days > balance / per <==> days * per > balance,
        balance / per >= 0,
        days * per >= 0,
        days * per / per == days,
        days > 0 ==> days * per > 0,
        0 <= balance / per * per <= balance,
{
    let q = balance / per;
    vstd::arithmetic::div_mod::lemma_fundamental_div_mod(balance, per);
    vstd::arithmetic::div_mod::lemma_mod_bound(balance, per);
    vstd::arithmetic::div_mod::lemma_div_multiples_vanish(days, per);
    vstd::arithmetic::mul::lemma_mul_is_commutative(days, per);
    assert(days > q ==> days * per > balance) by (nonlinear_arith)
        requires
            balance == per * q + balance % per,
            0 <= balance % per < per,
            per >= 1,
    ;
    assert(days <= q ==> days * per <= balance) by (nonlinear_arith)
        requires
            balance == per * q + balance % per,
            0 <= balance % per < per,
            per >= 1,
    ;
    assert(q >= 0 && days * per >= 0 && (days > 0 ==> days * per > 0)) by (nonlinear_arith)
        requires
            balance == per * q + balance % per,
            0 <= balance % per < per,
            per >= 1,
            days >= 0,
            balance >= 0,
    ;
    assert(q * per == per * q && q * per >= 0) by (nonlinear_arith)
        requires
            q >= 0,
            per >= 1,
    ;
}

/// An escrow stands as long as its prepaid rent covers the whole days since rent
/// was last collected. Whoever looks at it then has these days paid to the admin;
/// nothing else about it changes.
#[verifier::rlimit(40)]
pub proof fn law_rent_is_due(env: LedgerView, id: u64, admin: Address)
    requires
        env.config.admin == Some(admin),
        admin != env.contract,
        env.has_meta(id) ==> env.meta(id).escrow_id == id && env.meta(id).rent_balance >= 0,
    ensures
        ({
            let due = days(env, id) * daily(env, id);
            let (post, m) = env.accessed(id)->Ok_0;
            &&& env.accessed(id) is Ok <==> env.has_meta(id) && due <= env.meta(id).rent_balance
            &&& env.accessed(id) is Ok ==> {
                &&& gains(env, post, id, admin) == due
                &&& m == post.meta(id)
                &&& m.rent_balance == env.meta(id).rent_balance - due
                &&& m.last_rent_collection_at == env.meta(id).last_rent_collection_at + days(env, id)
                    * 86_400
                &&& m == (MetaView {
                    rent_balance: m.rent_balance,
                    last_rent_collection_at: m.last_rent_collection_at,
                    ..env.meta(id)
                })
            }
        }),
{
    broadcast use lemma_gained_push;

    if env.has_meta(id) {
        let m = env.meta(id);
        let per = env.rent_per_period(m);
        let n = days(env, id);
        assert(per == daily(env, id));
        lemma_covered(n, per, m.rent_balance as int);
        vstd::arithmetic::mul::lemma_mul_is_commutative(n, per);
    }
}

/// Collecting rent takes what is due, as far as it is there. An escrow that cannot
/// pay its rent is wound up: its client gets the balance, and the escrow is gone.
#[verifier::rlimit(60)]
pub proof fn law_collection_does(env: LedgerView, id: u64, admin: Address)
    requires
        env.config.admin == Some(admin),
        admin != env.contract,
        env.has_meta(id),
        env.rent_ok(id),
        env.meta(id).escrow_id == id,
        env.meta(id).rent_balance >= 0,
        env.meta(id).remaining_balance >= 0,
        outsider(env, env.meta(id).client),
    ensures
        ({
            let m = env.meta(id);
            let due = days(env, id) * daily(env, id);
            let (post, r) = env.collect(id)->Ok_0;
            let enough = due <= m.rent_balance;
            &&& env.collect(id) is Ok
            &&& r == if enough {
                due
            } else {
                m.rent_balance as int
            }
            &&& gains(env, post, id, admin) == r
            &&& enough ==> post.has_meta(id) && post.meta(id).rent_balance == m.rent_balance - due
            &&& enough ==> gains(env, post, id, m.client) == 0
            &&& !enough ==> !post.has_meta(id)
            &&& !enough ==> gains(env, post, id, m.client) == m.remaining_balance
        }),
{
    broadcast use lemma_gained_push;

    let m = env.meta(id);
    let per = env.rent_per_period(m);
    let n = days(env, id);
    assert(per == daily(env, id));
    lemma_covered(n, per, m.rent_balance as int);
    vstd::arithmetic::mul::lemma_mul_is_commutative(n, per);
    let (seen, (m2, amount)) = env.rent_collected(m)->Ok_0;
    if n > 0 {
        let paid = amount as int / per;
        assert(m2.last_rent_collection_at == m.last_rent_collection_at + paid * 86_400);
        assert(seen.rent_per_period(m2) == per);
        if n * per <= m.rent_balance {
            assert(paid == n);
        } else {
            assert(m2.rent_balance == 0);
            assert(0int / per == 0) by (nonlinear_arith)
                requires
                    per >= 1,
            ;
            assert(paid < n);
            assert(seen.rent_expired(m2));
        }
        lemma_cleared_log(
            if m2.remaining_balance + m2.rent_balance > 0 {
                seen.paid(m.token, m.client, (m2.remaining_balance + m2.rent_balance) as i128)
            } else {
                seen
            },
            id,
            m.milestone_count as nat,
        );
    }
}

proof fn lemma_cleared_log(env: LedgerView, id: u64, n: nat)
    ensures
        env.cleared(id, n).log == env.log,
    decreases n,
{
    if n > 0 {
        lemma_cleared_log(env, id, (n - 1) as nat);
    }
}

/// The client pays ahead for as many days as it likes, at the daily rate, and its
/// escrow's rent rises by exactly that.
#[verifier::rlimit(40)]
pub proof fn law_top_up_does(env: LedgerView, caller: Address, id: u64, periods: u64)
    requires
        env.config.admin is Some,
        !env.config.paused,
        env.authed(caller).accessed(id) is Ok,
        env.meta(id).escrow_id == id,
        env.meta(id).rent_balance >= 0,
        outsider(env, caller),
        env.authed(caller).accessed(id)->Ok_0.1.rent_balance + daily(env, id) * periods
            <= i128::MAX,
    ensures
        ({
            let (post, cost) = env.top_up(caller, id, periods)->Ok_0;
            let before = env.authed(caller).accessed(id)->Ok_0.1.rent_balance;
            &&& env.top_up(caller, id, periods) is Ok <==> caller == env.meta(id).client
            &&& env.top_up(caller, id, periods) is Ok ==> {
                &&& cost == daily(env, id) * periods
                &&& gains(env, post, id, caller) == -cost
                &&& post.meta(id).rent_balance == before + cost
                &&& post.meta(id).remaining_balance == env.meta(id).remaining_balance
            }
        }),
{
    broadcast use lemma_gained_push;

    let (seen, m) = env.authed(caller).accessed(id)->Ok_0;
    let per = daily(env, id);
    crate::gains::lemma_access_gained(env.authed(caller), id, env.meta(id).token, caller);
    assert(seen.rent_per_period(m) == per);
    crate::laws::law_rent_not_negative(env.authed(caller), env.meta(id));
    vstd::arithmetic::mul::lemma_mul_is_commutative(per, periods as int);
    assert(per * periods >= 0) by (nonlinear_arith)
        requires
            per >= 1,
            periods >= 0,
    ;
    if periods == 0 {
        assert(per * 0 == 0);
    }
}

/// The client takes back what is over thirty days' rent in advance, and no more.
#[verifier::rlimit(40)]
pub proof fn law_rent_withdrawn(env: LedgerView, caller: Address, id: u64, amount: i128)
    requires
        env.config.admin is Some,
        !env.config.paused,
        !env.config.reentrancy_lock,
        env.authed(caller).accessed(id) is Ok,
        env.meta(id).escrow_id == id,
        outsider(env, caller),
    ensures
        ({
            let r = env.withdraw_rent(caller, id, amount);
            let before = env.authed(caller).accessed(id)->Ok_0.1.rent_balance;
            &&& r is Ok <==> caller == env.meta(id).client && amount > 0 && before - amount >= 30
                * daily(env, id)
            &&& r is Ok ==> {
                &&& gains(env, r->Ok_0.0, id, caller) == amount
                &&& r->Ok_0.0.meta(id).rent_balance == before - amount
                &&& r->Ok_0.0.meta(id).remaining_balance == env.meta(id).remaining_balance
            }
        }),
{
    broadcast use lemma_gained_push;

    crate::gains::lemma_access_gained(env.authed(caller), id, env.meta(id).token, caller);
}

/// Unless the admin says otherwise an escrow costs one percent of its total from
/// ten thousand on, one and a half from a thousand on, and two below, rounded down.
pub proof fn law_default_fee(env: LedgerView, amount: i128)
    requires
        env.config.platform_fee_tiers is None,
        0 <= amount <= 100_000_000_000_000_000,
    ensures
        ({
            let a = amount as int;
            let s = env.platform_fee(amount)->Ok_0;
            &&& env.platform_fee(amount) is Ok
            &&& s.fee_amount == if a >= 10_000 {
                a / 100
            } else if a >= 1_000 {
                a * 15 / 1_000
            } else {
                a / 50
            }
            &&& s.collected == (a < 50)
        }),
{
    let t = default_tiers();
    assert(t.len() == 3);
    reveal_with_fuel(selected_bps, 4);
    assert(t.drop_last() =~= seq![t[0], t[1]]);
    assert(t.drop_last().drop_last() =~= seq![t[0]]);
    crate::laws::law_default_tiers_usable();
    let bps = selected_bps(t, amount);
    assert(bps == if amount >= 10_000 {
        100
    } else if amount >= 1_000 {
        150
    } else {
        200u32
    });
    assert(amount * bps == if amount >= 10_000 {
        amount * 100
    } else if amount >= 1_000 {
        amount * 150
    } else {
        amount * 200
    });
}

/// Where the admin set rates, an escrow costs what the highest tier says that its
/// total reaches: that many ten-thousandths, rounded down.
pub proof fn law_tier_fee(env: LedgerView, amount: i128, tiers: Seq<FeeTier>, i: int)
    requires
        env.config.platform_fee_tiers == Some(tiers),
        usable_tiers(tiers),
        0 <= i < tiers.len(),
        tiers[i].min_total_amount <= amount <= 100_000_000_000_000_000,
        forall|j: int| i < j < tiers.len() ==> amount < (#[trigger] tiers[j]).min_total_amount,
    ensures
        env.platform_fee(amount) is Ok,
        env.platform_fee(amount)->Ok_0.fee_bps == tiers[i].fee_bps,
        env.platform_fee(amount)->Ok_0.fee_amount == amount * tiers[i].fee_bps / 10_000,
        env.platform_fee(amount)->Ok_0.collected <==> amount * tiers[i].fee_bps < 10_000,
{
    crate::laws::law_highest_tier_counts(tiers, amount, i);
    let bps = tiers[i].fee_bps;
    assert(bps <= 10_000 && tiers[i].min_total_amount >= 0);
    assert(0 <= amount * bps <= 100_000_000_000_000_000 * 10_000) by (nonlinear_arith)
        requires
            0 <= amount <= 100_000_000_000_000_000,
            0 <= bps <= 10_000,
    ;
}

/// A fee that is open is paid to the treasury, once.
pub proof fn law_fee_paid_once(env: LedgerView, id: u64, token: Address, treasury: Address)
    requires
        env.config.platform_treasury == Some(treasury),
        treasury != env.contract,
    ensures
        ({
            let s = env.fee_snapshot(id);
            let (post, paid) = env.fee_settled(id, token)->Ok_0;
            &&& env.fee_settled(id, token) is Ok
            &&& paid == if s.collected {
                0
            } else {
                s.fee_amount
            }
            &&& gained(post.log, token, treasury) - gained(env.log, token, treasury) == paid
            &&& paid != 0 ==> post.fee_snapshot(id) == (EscrowFeeSnapshot { collected: true, ..s })
            &&& post.fee_settled(id, token) is Ok
            &&& post.fee_settled(id, token)->Ok_0.1 == 0
        }),
{
    broadcast use lemma_gained_push;

}

} // verus!
