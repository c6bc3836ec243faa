//! Cancelling, splitting, and the slashes that cancelling brings.
use vstd::prelude::*;

use crate::constants::{
    CANCELLATION_DISPUTE_PERIOD, MAX_STRING_LEN, SLASH_DISPUTE_PERIOD, SLASH_PERCENTAGE,
};
use crate::contract::EscrowContract;
use crate::creation::NewEscrow;
use crate::disputes::{capped_add, floored_sub};
use crate::errors::EscrowError;
use crate::events::Event;
use crate::fees::lemma_fee_bounds;
use crate::index::{append_id, appended, dropped, listed, remove_id};
use crate::ledger::{answers, attempts, BookView, Ledger, LedgerView, Outcome};
use crate::milestones::one_less;
use crate::release::toward_zero;
use crate::storage::{reserve, ContractStorage};
use crate::store::Record;
use crate::types::{
    Address, CancellationRequest, CancellationView, EscrowFeeSnapshot, EscrowMeta, EscrowStatus,
    Hash32, MetaView, MultisigConfig, MultisigView, ReputationRecord, SlashRecord, SlashView, Text,
    Timelock, MS_APPROVED,
};

verus! {

/// A difference of amounts that stops at the ends of their range.
pub open spec fn clamped_sub(a: i128, b: i128) -> i128 {
    if a - b > i128::MAX {
        i128::MAX
    } else if a - b < i128::MIN {
        i128::MIN
    } else {
        (a - b) as i128
    }
}

/// The part of a balance that a cancellation costs.
pub open spec fn slash_part(balance: int) -> int {
    toward_zero(balance * SLASH_PERCENTAGE, 100)
}

/// The reason that stands in a slash record: "Escrow cancellation".
pub open spec fn slash_reason() -> Seq<u8> {
    seq![
        69u8, 115u8, 99u8, 114u8, 111u8, 119u8, 32u8, 99u8, 97u8, 110u8, 99u8, 101u8, 108u8, 108u8,
        97u8, 116u8, 105u8, 111u8, 110u8,
    ]
}

/// A record after a slash: ten points less.
pub open spec fn slashed(r: ReputationRecord, amount: i128, now: u64) -> ReputationRecord {
    ReputationRecord {
        total_score: floored_sub(r.total_score, 10),
        slash_count: (r.slash_count + 1) as u32,
        total_slashed: (r.total_slashed + amount) as i128,
        last_updated: now,
        ..r
    }
}

/// A record after a slash was reversed.
pub open spec fn restored(r: ReputationRecord, amount: i128) -> ReputationRecord {
    ReputationRecord {
        slash_count: one_less(r.slash_count),
        total_slashed: clamped_sub(r.total_slashed, amount),
        total_score: capped_add(r.total_score, 10),
        ..r
    }
}

/// The fee of an escrow that owes none.
pub open spec fn no_fee() -> EscrowFeeSnapshot {
    EscrowFeeSnapshot { fee_bps: 0, fee_amount: 0, collected: true }
}

impl LedgerView {
    /// What the approved ones among the first `n` milestones come to.
    pub open spec fn approved_due(self, id: u64, n: nat) -> Result<i128, EscrowError>
        decreases n,
    {
        if n == 0 {
            Ok(0)
        } else {
            match self.approved_due(id, (n - 1) as nat) {
                Err(e) => Err(e),
                Ok(sum) => {
                    let mid = (n - 1) as u32;
                    let ms = self.milestone(id, mid);
                    if !self.has_milestone(id, mid) {
                        Err(EscrowError::E13)
                    } else if ms.status != MS_APPROVED {
                        Ok(sum)
                    } else if !(i128::MIN <= sum + ms.amount <= i128::MAX) {
                        Err(EscrowError::E20)
                    } else {
                        Ok((sum + ms.amount) as i128)
                    }
                },
            }
        }
    }

    /// Pays out a cancelled escrow: the platform's fee, what was approved to the
    /// freelancer, and the rest to the client.
    pub open spec fn cancel_paid(
        self,
        m: MetaView,
        fee: i128,
        approved: i128,
        refund: i128,
    ) -> Outcome<()> {
        if fee > 0 && self.config.platform_treasury is None {
            Err(EscrowError::E2)
        } else {
            let first = if fee > 0 {
                self.paid(m.token, self.config.platform_treasury->Some_0, fee)
            } else {
                self
            };
            let second = if approved > 0 {
                first.paid(m.token, m.freelancer, approved)
            } else {
                first
            };
            Ok(
                (
                    if refund > 0 {
                        second.paid(m.token, m.client, refund)
                    } else {
                        second
                    },
                    (),
                ),
            )
        }
    }

    /// What the platform takes of an escrow that is cancelled: its fee, as far as
    /// the balance goes, unless it is on record that the fee is settled.
    pub open spec fn cancel_fee(self, id: u64, m: MetaView) -> Result<i128, EscrowError> {
        if self.book.fee_snapshots.contains_key(id) && self.book.fee_snapshots[id].collected {
            Ok(0)
        } else {
            match self.platform_fee(m.total_amount) {
                Err(e) => Err(e),
                Ok(snapshot) => Ok(
                    if snapshot.fee_amount > m.remaining_balance {
                        m.remaining_balance
                    } else {
                        snapshot.fee_amount
                    },
                ),
            }
        }
    }

    /// Cancels an escrow.
    pub open spec fn cancel(self, caller: Address, id: u64) -> Outcome<()> {
        if self.config.paused {
            Err(EscrowError::E31)
        } else if self.is_frozen(id) {
            Err(EscrowError::E61)
        } else if self.config.reentrancy_lock {
            Err(EscrowError::E22)
        } else {
            match self.authed(caller).accessed(id) {
                Err(e) => Err(e),
                Ok((env, m)) => if caller != m.client {
                    Err(EscrowError::E5)
                } else if m.status != EscrowStatus::Active {
                    Err(EscrowError::E9)
                } else {
                    match env.cancel_fee(id, m) {
                        Err(e) => Err(e),
                        Ok(fee) => match env.approved_due(id, m.milestone_count as nat) {
                            Err(e) => Err(e),
                            Ok(approved) => {
                                let refund = m.remaining_balance - fee - approved;
                                if refund < 0 || refund > i128::MAX {
                                    Err(EscrowError::E20)
                                } else {
                                    match env.cancel_paid(m, fee, approved, refund as i128) {
                                        Err(e) => Err(e),
                                        Ok((paid, _)) => Ok(
                                            (
                                                paid.stepped(
                                                    id,
                                                    EscrowStatus::Active,
                                                    EscrowStatus::Cancelled,
                                                    Some(caller),
                                                ).moved(
                                                    id,
                                                    EscrowStatus::Active,
                                                    EscrowStatus::Cancelled,
                                                ).saved_meta(
                                                    MetaView {
                                                        remaining_balance: 0,
                                                        status: EscrowStatus::Cancelled,
                                                        ..m
                                                    },
                                                ).removed_fee_snapshot(id).told(
                                                    Event::CancellationBreakdown {
                                                        escrow_id: id,
                                                        freelancer_payout: approved,
                                                        client_refund: refund as i128,
                                                        fee,
                                                    },
                                                ).told(
                                                    Event::EscrowCancelled {
                                                        escrow_id: id,
                                                        refund: refund as i128,
                                                    },
                                                ),
                                                (),
                                            ),
                                        ),
                                    }
                                }
                            },
                        },
                    }
                },
            }
        }
    }

    /// What a child of an escrow asks for: it inherits the parties, the dates,
    /// the approval policy and the length of the timelock.
    pub open spec fn child(m: MetaView, amount: i128, brief_hash: Hash32) -> NewEscrow {
        NewEscrow {
            client: m.client,
            freelancer: m.freelancer,
            token: m.token,
            total_amount: amount,
            brief_hash,
            arbiter: m.arbiter,
            deadline: m.deadline,
            lock_time: m.lock_time,
            dispute_timeout_ledger: m.dispute_timeout_ledger,
            buyer_signers: Some(m.buyer_signers),
            multisig: if m.multisig_threshold > 0 {
                Some(
                    MultisigView {
                        approvers: m.buyer_signers,
                        weights: m.multisig_weights,
                        threshold: m.multisig_threshold,
                    },
                )
            } else {
                None
            },
            timelock: match m.timelock {
                Some(t) => Some(Timelock { duration_ledger: t.duration_ledger, start_ledger: 0 }),
                None => None,
            },
            terms_hash: None,
        }
    }

    /// The state after both parties were asked to have signed, the caller once.
    pub open spec fn both_authed(self, caller: Address, m: MetaView) -> LedgerView {
        let first = if caller != m.client {
            self.authed(m.client)
        } else {
            self
        };
        if caller != m.freelancer {
            first.authed(m.freelancer)
        } else {
            first
        }
    }

    /// Creates a child of an escrow over an amount that the contract holds. The
    /// platform's fee is that of the escrow that was split: the child owes none.
    pub open spec fn child_created(
        self,
        m: MetaView,
        amount: i128,
        brief_hash: Hash32,
    ) -> Outcome<u64> {
        match self.created_from(LedgerView::child(m, amount, brief_hash), false) {
            Err(e) => Err(e),
            Ok((post, child)) => Ok((post.saved_fee_snapshot(child, no_fee()), child)),
        }
    }

    /// Moves an escrow's unallocated amount into two new escrows, and out of the
    /// reach of the milestones that the escrow still gets. While a schedule has
    /// payments to make, nothing is free to be moved. The answer is the ids of the
    /// new escrows.
    pub open spec fn split(
        self,
        caller: Address,
        id: u64,
        split_amount: i128,
        brief_hash: Hash32,
    ) -> Outcome<(u64, u64)> {
        if self.config.paused {
            Err(EscrowError::E31)
        } else {
            match self.authed(caller).accessed(id) {
                Err(e) => Err(e),
                Ok((env, m)) => {
                    let unallocated = m.remaining_balance - m.allocated_amount;
                    if m.status != EscrowStatus::Active {
                        Err(EscrowError::E9)
                    } else if split_amount <= 0 || split_amount >= unallocated || env.scheduled(
                        id,
                    ) {
                        Err(EscrowError::E19)
                    } else {
                        match env.both_authed(caller, m).saved_meta(
                            MetaView {
                                remaining_balance: m.allocated_amount,
                                allotted_amount: clamped_sub(
                                    m.allotted_amount,
                                    unallocated as i128,
                                ),
                                ..m
                            },
                        ).child_created(m, split_amount, brief_hash) {
                            Err(e) => Err(e),
                            Ok((one, child1)) => match one.child_created(
                                m,
                                (unallocated - split_amount) as i128,
                                brief_hash,
                            ) {
                                Err(e) => Err(e),
                                Ok((two, child2)) => Ok(
                                    (
                                        two.told(
                                            Event::EscrowSplit { escrow_id: id, child1, child2 },
                                        ),
                                        (child1, child2),
                                    ),
                                ),
                            },
                        }
                    }
                },
            }
        }
    }

    /// Gives back what no milestone claims. The answer is how much that is.
    pub open spec fn cancel_rest(self, caller: Address, id: u64) -> Outcome<i128> {
        if self.config.paused {
            Err(EscrowError::E31)
        } else if self.is_frozen(id) {
            Err(EscrowError::E61)
        } else if self.config.reentrancy_lock {
            Err(EscrowError::E22)
        } else {
            match self.authed(caller).accessed(id) {
                Err(e) => Err(e),
                Ok((env, m)) => {
                    let rest = clamped_sub(m.remaining_balance, m.allocated_amount);
                    if caller != m.client {
                        Err(EscrowError::E5)
                    } else if m.status != EscrowStatus::Active {
                        Err(EscrowError::E9)
                    } else if rest <= 0 {
                        Ok((env, 0i128))
                    } else {
                        Ok(
                            (
                                env.paid(m.token, m.client, rest).saved_meta(
                                    MetaView {
                                        remaining_balance: (m.remaining_balance - rest) as i128,
                                        ..m
                                    },
                                ).told(Event::PartialCancellation { escrow_id: id, refund: rest }),
                                rest,
                            ),
                        )
                    }
                },
            }
        }
    }

    /// Asks to cancel an escrow; the other party may object for a while.
    pub open spec fn ask_cancellation(
        self,
        caller: Address,
        id: u64,
        reason: Seq<u8>,
    ) -> Outcome<()> {
        if self.config.admin is None {
            Err(EscrowError::E2)
        } else if self.config.paused {
            Err(EscrowError::E31)
        } else {
            match self.authed(caller).accessed(id) {
                Err(e) => Err(e),
                Ok((env, m)) => if caller != m.client && caller != m.freelancer {
                    Err(EscrowError::E3)
                } else if reason.len() > MAX_STRING_LEN {
                    Err(EscrowError::E19)
                } else if m.status != EscrowStatus::Active {
                    Err(EscrowError::E9)
                } else if env.book.cancellations.contains_key(id) {
                    Err(EscrowError::E33)
                } else if m.rent_balance + reserve(1) > i128::MAX {
                    Err(EscrowError::E20)
                } else {
                    let deadline = (self.timestamp + CANCELLATION_DISPUTE_PERIOD) as u64;
                    let asked = env.charged(
                        m.token,
                        caller,
                        reserve(1) as i128,
                    ).saved_cancellation(
                        CancellationView {
                            escrow_id: id,
                            requester: caller,
                            reason,
                            requested_at: self.timestamp,
                            dispute_deadline: deadline,
                            disputed: false,
                            counterparty_approved: false,
                        },
                    );
                    Ok(
                        (
                            asked.with_book(
                                BookView {
                                    by_requester: appended(asked.book.by_requester, caller, id),
                                    ..asked.book
                                },
                            ).moved(
                                id,
                                EscrowStatus::Active,
                                EscrowStatus::CancellationPending,
                            ).saved_meta(
                                MetaView {
                                    rent_balance: (m.rent_balance + reserve(1)) as i128,
                                    status: EscrowStatus::CancellationPending,
                                    ..m
                                },
                            ).told_text(
                                Event::CancellationRequested {
                                    escrow_id: id,
                                    by: caller,
                                    dispute_deadline: deadline,
                                },
                                reason,
                            ),
                            (),
                        ),
                    )
                },
            }
        }
    }

    /// The party that did not ask to cancel.
    pub open spec fn other_party(m: MetaView, requester: Address) -> Address {
        if requester == m.client {
            m.freelancer
        } else {
            m.client
        }
    }

    /// The other party agrees to a cancellation.
    pub open spec fn agree_cancellation(self, caller: Address, id: u64) -> Outcome<()> {
        if self.config.admin is None {
            Err(EscrowError::E2)
        } else if self.config.paused {
            Err(EscrowError::E31)
        } else {
            match self.authed(caller).accessed(id) {
                Err(e) => Err(e),
                Ok((env, m)) => {
                    let c = env.book.cancellations[id];
                    if !env.book.cancellations.contains_key(id) {
                        Err(EscrowError::E32)
                    } else if caller != LedgerView::other_party(m, c.requester) {
                        Err(EscrowError::E3)
                    } else {
                        Ok(
                            (
                                env.saved_cancellation(
                                    CancellationView { counterparty_approved: true, ..c },
                                ).told(Event::CancellationApproved { escrow_id: id, by: caller }),
                                (),
                            ),
                        )
                    }
                },
            }
        }
    }

    /// Holds an amount against somebody.
    pub open spec fn slash_applied(
        self,
        user: Address,
        recipient: Address,
        amount: i128,
        reason: Seq<u8>,
        id: u64,
    ) -> Outcome<()> {
        if self.book.slashes.contains_key(id) {
            Err(EscrowError::E41)
        } else {
            let env = self.saved_reputation(
                slashed(self.reputation(user), amount, self.timestamp),
            ).saved_slash(
                SlashView {
                    escrow_id: id,
                    slashed_user: user,
                    recipient,
                    amount,
                    reason,
                    slashed_at: self.timestamp,
                    disputed: false,
                },
            );
            Ok(
                (
                    env.with_book(
                        BookView {
                            by_slashed: appended(env.book.by_slashed, user, id),
                            ..env.book
                        },
                    ).told_text(
                        Event::SlashApplied {
                            escrow_id: id,
                            slashed_user: user,
                            recipient,
                            amount,
                        },
                        reason,
                    ),
                    (),
                ),
            )
        }
    }

    /// A slash of an amount fits the record of an address.
    pub open spec fn slash_fits(self, who: Address, amount: int) -> bool {
        let r = self.reputation(who);
        r.slash_count < u32::MAX && i128::MIN <= r.total_slashed + amount <= i128::MAX
    }

    /// The same for a cancellation that is carried out, if there is one, and its
    /// part of the balance can be computed.
    pub open spec fn cancellation_fits(self, id: u64) -> bool {
        self.has_meta(id) && self.book.cancellations.contains_key(id) ==> {
            let balance = self.meta(id).remaining_balance;
            &&& i128::MIN <= balance * SLASH_PERCENTAGE <= i128::MAX
            &&& self.slash_fits(self.book.cancellations[id].requester, slash_part(balance as int))
        }
    }

    /// Carries a cancellation out: a part of the balance is held against who
    /// asked for it, who gets the rest.
    pub open spec fn execute_cancellation(self, id: u64) -> Outcome<()> {
        if self.config.admin is None {
            Err(EscrowError::E2)
        } else if self.config.paused {
            Err(EscrowError::E31)
        } else if self.config.reentrancy_lock {
            Err(EscrowError::E22)
        } else {
            match self.accessed(id) {
                Err(e) => Err(e),
                Ok((env, m)) => {
                    let c = env.book.cancellations[id];
                    let slash = slash_part(m.remaining_balance as int) as i128;
                    let rest = (m.remaining_balance - slash) as i128;
                    if !env.book.cancellations.contains_key(id) {
                        Err(EscrowError::E32)
                    } else if !c.counterparty_approved && self.timestamp < c.dispute_deadline {
                        Err(EscrowError::E35)
                    } else if c.disputed {
                        Err(EscrowError::E37)
                    } else {
                        match env.slash_applied(
                            c.requester,
                            LedgerView::other_party(m, c.requester),
                            slash,
                            slash_reason(),
                            id,
                        ) {
                            Err(e) => Err(e),
                            Ok((held, _)) => {
                                let paid = (if rest > 0 {
                                    held.paid(m.token, c.requester, rest)
                                } else {
                                    held
                                }).stepped(
                                    id,
                                    EscrowStatus::Active,
                                    EscrowStatus::Cancelled,
                                    None,
                                );
                                Ok(
                                    (
                                        paid.with_book(
                                            BookView {
                                                by_requester: dropped(
                                                    paid.book.by_requester,
                                                    c.requester,
                                                    id,
                                                ),
                                                ..paid.book
                                            },
                                        ).moved(
                                            id,
                                            EscrowStatus::CancellationPending,
                                            EscrowStatus::Cancelled,
                                        ).saved_meta(
                                            MetaView {
                                                status: EscrowStatus::Cancelled,
                                                remaining_balance: 0,
                                                ..m
                                            },
                                        ).removed_fee_snapshot(id).removed_cancellation(id).told(
                                            Event::CancellationExecuted {
                                                escrow_id: id,
                                                requester_amount: rest,
                                                slash_amount: slash,
                                            },
                                        ),
                                        (),
                                    ),
                                )
                            },
                        }
                    }
                },
            }
        }
    }

    /// The other party objects to a cancellation, which makes it a dispute.
    pub open spec fn object_cancellation(self, caller: Address, id: u64) -> Outcome<()> {
        if self.config.admin is None {
            Err(EscrowError::E2)
        } else if self.config.paused {
            Err(EscrowError::E31)
        } else {
            match self.authed(caller).accessed(id) {
                Err(e) => Err(e),
                Ok((env, m)) => {
                    let c = env.book.cancellations[id];
                    if !env.book.cancellations.contains_key(id) {
                        Err(EscrowError::E32)
                    } else if caller == c.requester || (caller != m.client && caller
                        != m.freelancer) {
                        Err(EscrowError::E3)
                    } else if c.disputed {
                        Err(EscrowError::E34)
                    } else if self.timestamp >= c.dispute_deadline {
                        Err(EscrowError::E36)
                    } else {
                        Ok(
                            (
                                env.saved_cancellation(
                                    CancellationView { disputed: true, ..c },
                                ).stepped(
                                    id,
                                    EscrowStatus::CancellationPending,
                                    EscrowStatus::Disputed,
                                    Some(caller),
                                ).moved(
                                    id,
                                    EscrowStatus::CancellationPending,
                                    EscrowStatus::Disputed,
                                ).saved_meta(
                                    MetaView {
                                        status: EscrowStatus::Disputed,
                                        dispute_started_ledger: Some(self.sequence),
                                        dispute_start_ledger: Some(self.timestamp),
                                        ..m
                                    },
                                ).told(Event::DisputeRaised { escrow_id: id, by: caller }),
                                (),
                            ),
                        )
                    }
                },
            }
        }
    }

    /// The end of a slash's dispute period, where there is a slash, has a
    /// timestamp.
    pub open spec fn slash_period_fits(self, id: u64) -> bool {
        self.book.slashes.contains_key(id) ==> self.book.slashes[id].slashed_at
            + SLASH_DISPUTE_PERIOD <= u64::MAX
    }

    /// Hands a held amount over once nobody can dispute it any more.
    pub open spec fn finalize(self, id: u64) -> Outcome<()> {
        let s = self.book.slashes[id];
        if self.config.admin is None {
            Err(EscrowError::E2)
        } else if self.config.paused {
            Err(EscrowError::E31)
        } else if self.config.reentrancy_lock {
            Err(EscrowError::E22)
        } else if !self.book.slashes.contains_key(id) {
            Err(EscrowError::E38)
        } else if s.disputed {
            Err(EscrowError::E39)
        } else if self.timestamp < s.slashed_at + SLASH_DISPUTE_PERIOD {
            Err(EscrowError::E40)
        } else if !self.has_meta(id) {
            Err(EscrowError::E8)
        } else {
            Ok(
                (
                    self.paid(self.meta(id).token, s.recipient, s.amount).removed_slash(id).told_text(
                        Event::SlashApplied {
                            escrow_id: id,
                            slashed_user: s.slashed_user,
                            recipient: s.recipient,
                            amount: s.amount,
                        },
                        s.reason,
                    ),
                    (),
                ),
            )
        }
    }

    /// Disputes a slash.
    pub open spec fn object_slash(self, caller: Address, id: u64) -> Outcome<()> {
        if self.config.paused {
            Err(EscrowError::E31)
        } else {
            match self.authed(caller).accessed(id) {
                Err(e) => Err(e),
                Ok((env, _)) => {
                    let s = env.book.slashes[id];
                    if !env.book.slashes.contains_key(id) {
                        Err(EscrowError::E38)
                    } else if caller != s.slashed_user {
                        Err(EscrowError::E3)
                    } else if s.disputed {
                        Err(EscrowError::E39)
                    } else if self.timestamp >= s.slashed_at + SLASH_DISPUTE_PERIOD {
                        Err(EscrowError::E40)
                    } else {
                        Ok(
                            (
                                env.saved_slash(SlashView { disputed: true, ..s }).told(
                                    Event::SlashDisputed {
                                        escrow_id: id,
                                        by: caller,
                                        amount: s.amount,
                                    },
                                ),
                                (),
                            ),
                        )
                    }
                },
            }
        }
    }

    /// Decides a disputed slash. Where it is upheld, the held amount goes to its
    /// recipient. Where it is reversed, the amount goes back and the record is
    /// restored.
    pub open spec fn resolve_slash(self, caller: Address, id: u64, upheld: bool) -> Outcome<()> {
        let s = self.book.slashes[id];
        if self.config.paused {
            Err(EscrowError::E31)
        } else if self.config.reentrancy_lock {
            Err(EscrowError::E22)
        } else if !self.book.slashes.contains_key(id) {
            Err(EscrowError::E38)
        } else {
            match self.authed(caller).accessed(id) {
                Err(e) => Err(e),
                Ok((env, m)) => if env.judge_check(m, caller) is Err {
                    env.judge_check(m, caller)->Err_0.refused()
                } else if !s.disputed {
                    Err(EscrowError::E38)
                } else {
                    let done = if upheld {
                        env.paid(m.token, s.recipient, s.amount)
                    } else {
                        env.paid(m.token, s.slashed_user, s.amount).saved_reputation(
                            restored(env.reputation(s.slashed_user), s.amount),
                        )
                    };
                    Ok(
                        (
                            done.told(
                                Event::SlashDisputeResolved {
                                    escrow_id: id,
                                    upheld,
                                    amount: s.amount,
                                },
                            ).removed_slash(id),
                            (),
                        ),
                    )
                },
            }
        }
    }
}

/// An escrow that was created takes one place in a list.
proof fn lemma_created_room(env: LedgerView, a: NewEscrow, n: int)
    requires
        env.room(n),
        n >= 1,
        env.created_from(a, false) is Ok,
    ensures
        env.created_from(a, false)->Ok_0.0.room(n - 1),
        env.created_from(a, false)->Ok_0.0.config.escrow_counter == (env.config.escrow_counter
            + 1) as u64,
{
    let post = env.created_from(a, false)->Ok_0.0;
    let id = env.config.escrow_counter;
    assert(post.book.by_participant == appended(
        appended(env.book.by_participant, a.client, id),
        a.freelancer,
        id,
    ));
    assert(post.book.by_status == appended(env.book.by_status, EscrowStatus::Active, id));
    assert forall|k: Address| (#[trigger] listed(post.book.by_participant, k)).len() + (n - 1)
        <= u32::MAX by {
        assert(listed(env.book.by_participant, k).len() + n <= u32::MAX);
        assert(a.client != a.freelancer);
    }
    assert forall|k: EscrowStatus| (#[trigger] listed(post.book.by_status, k)).len() + (n - 1)
        <= u32::MAX by {
        assert(listed(env.book.by_status, k).len() + n <= u32::MAX);
    }
    assert forall|k: Address| (#[trigger] listed(post.book.by_requester, k)).len() + (n - 1)
        <= u32::MAX by {
        assert(listed(env.book.by_requester, k).len() + n <= u32::MAX);
    }
    assert forall|k: Address| (#[trigger] listed(post.book.by_slashed, k)).len() + (n - 1)
        <= u32::MAX by {
        assert(listed(env.book.by_slashed, k).len() + n <= u32::MAX);
    }
}

proof fn lemma_approved_due_err(env: LedgerView, id: u64, j: nat, k: nat)
    requires
        j <= k,
        env.approved_due(id, j) is Err,
    ensures
        env.approved_due(id, k) == env.approved_due(id, j),
    decreases k,
{
    if j < k {
        lemma_approved_due_err(env, id, j, (k - 1) as nat);
    }
}

/// The part of a balance that is held is no larger than the balance.
pub proof fn lemma_slash_part(balance: int)
    ensures
        balance >= 0 ==> 0 <= slash_part(balance) <= balance,
        balance <= 0 ==> balance <= slash_part(balance) <= 0,
{
}

impl EscrowContract {
    /// Sums up the approved milestones of an escrow.
    fn sum_approved(env: &Ledger, escrow_id: u64, count: u32) -> (r: Result<i128, EscrowError>)
        ensures
            r == env@.approved_due(escrow_id, count as nat),
    {
        let mut sum: i128 = 0;
        let mut mid: u32 = 0;
        while mid < count
            invariant
                mid <= count,
                env@.approved_due(escrow_id, mid as nat) == Ok::<i128, EscrowError>(sum),
            decreases count - mid,
        {
            proof {
                if env@.approved_due(escrow_id, (mid + 1) as nat) is Err {
                    lemma_approved_due_err(env@, escrow_id, (mid + 1) as nat, count as nat);
                }
            }
            let m = ContractStorage::load_milestone(env, escrow_id, mid)?;
            if m.status == MS_APPROVED {
                match sum.checked_add(m.amount) {
                    None => {
                        return Err(EscrowError::E20);
                    },
                    Some(s) => {
                        sum = s;
                    },
                }
            }
            mid = mid + 1;
        }
        Ok(sum)
    }

    /// What the platform takes of an escrow that is cancelled.
    fn fee_of_cancelled(env: &Ledger, escrow_id: u64, meta: &EscrowMeta) -> (r: Result<
        i128,
        EscrowError,
    >)
        ensures
            r == env@.cancel_fee(escrow_id, meta@),
            r matches Ok(fee) ==> fee >= 0 || fee == meta.remaining_balance,
    {
        if let Some(s) = env.book.fee_snapshots.get(escrow_id) {
            if s.collected {
                return Ok(0);
            }
        }
        let snapshot = Self::calculate_platform_fee(env, meta.total_amount)?;
        proof {
            lemma_fee_bounds(env@, meta.total_amount);
        }
        if snapshot.fee_amount > meta.remaining_balance {
            Ok(meta.remaining_balance)
        } else {
            Ok(snapshot.fee_amount)
        }
    }

    fn pay_cancelled(
        env: &mut Ledger,
        meta: &EscrowMeta,
        fee: i128,
        approved: i128,
        refund: i128,
    ) -> (r: Result<(), EscrowError>)
        ensures
            answers(r, old(env)@, final(env)@, old(env)@.cancel_paid(meta@, fee, approved, refund)),
    {
        if fee > 0 {
            let treasury = match env.config.platform_treasury {
                None => {
                    return Err(EscrowError::E2);
                },
                Some(t) => t,
            };
            env.pay(meta.token, treasury, fee);
        }
        if approved > 0 {
            env.pay(meta.token, meta.freelancer, approved);
        }
        if refund > 0 {
            env.pay(meta.token, meta.client, refund);
        }
        Ok(())
    }

    /// The client cancels an escrow.
    #[verifier::rlimit(40)]
    pub fn cancel_escrow(
        env: &mut Ledger,
        caller: Address,
        escrow_id: u64,
    ) -> (r: Result<(), EscrowError>)
        requires
            old(env)@.rent_ok(escrow_id),
            old(env)@.room(1),
        ensures
            answers(r, old(env)@, final(env)@, old(env)@.cancel(caller, escrow_id)),
    {
        let mut tx = env.dup();
        tx.require_auth(caller);
        ContractStorage::require_not_paused(&tx)?;
        ContractStorage::require_not_frozen(&tx, escrow_id)?;
        ContractStorage::require_unlocked(&tx)?;
        let mut meta = ContractStorage::load_escrow_meta_with_rent(&mut tx, escrow_id)?;
        if caller != meta.client {
            return Err(EscrowError::E5);
        }
        if meta.status != EscrowStatus::Active {
            return Err(EscrowError::E9);
        }
        let fee: i128 = Self::fee_of_cancelled(&tx, escrow_id, &meta)?;
        let approved: i128 = Self::sum_approved(&tx, escrow_id, meta.milestone_count)?;
        let available: i128 = match meta.remaining_balance.checked_sub(fee) {
            None => {
                return Err(EscrowError::E20);
            },
            Some(a) => a,
        };
        if approved > available {
            return Err(EscrowError::E20);
        }
        let refund: i128 = match available.checked_sub(approved) {
            None => {
                return Err(EscrowError::E20);
            },
            Some(x) => x,
        };
        Self::pay_cancelled(&mut tx, &meta, fee, approved, refund)?;
        meta.remaining_balance = 0;
        meta.status = EscrowStatus::Cancelled;
        ContractStorage::record_state_change(
            &mut tx,
            escrow_id,
            EscrowStatus::Active,
            EscrowStatus::Cancelled,
            Some(caller),
        );
        assert(listed(env@.book.by_status, EscrowStatus::Cancelled).len() + 1 <= u32::MAX);
        ContractStorage::move_status(
            &mut tx,
            escrow_id,
            EscrowStatus::Active,
            EscrowStatus::Cancelled,
        );
        ContractStorage::save_escrow_meta(&mut tx, &meta);
        ContractStorage::remove_fee_snapshot(&mut tx, escrow_id);
        tx.publish(
            Event::CancellationBreakdown {
                escrow_id,
                freelancer_payout: approved,
                client_refund: refund,
                fee,
            },
        );
        tx.publish(Event::EscrowCancelled { escrow_id, refund });
        *env = tx;
        Ok(())
    }

    fn create_child(env: &mut Ledger, meta: &EscrowMeta, amount: i128, brief_hash: Hash32) -> (r:
        Result<u64, EscrowError>)
        requires
            old(env)@.config.escrow_counter < u64::MAX,
            old(env)@.room(1),
            meta@.buyer_signers.len() < u32::MAX,
        ensures
            attempts(r, final(env)@, old(env)@.child_created(meta@, amount, brief_hash)),
    {
        let timelock = match meta.timelock {
            Some(t) => Some(Timelock { duration_ledger: t.duration_ledger, start_ledger: 0 }),
            None => None,
        };
        let multisig = if meta.multisig_threshold > 0 {
            Some(
                MultisigConfig {
                    approvers: meta.buyer_signers.dup(),
                    weights: meta.multisig_weights.dup(),
                    threshold: meta.multisig_threshold,
                },
            )
        } else {
            None
        };
        let child: u64 = Self::create_escrow_from(
            env,
            meta.client,
            meta.freelancer,
            meta.token,
            amount,
            brief_hash,
            meta.arbiter,
            meta.deadline,
            meta.lock_time,
            meta.dispute_timeout_ledger,
            Some(meta.buyer_signers.dup()),
            multisig,
            timelock,
            None,
            false,
            false,
        )?;
        ContractStorage::save_fee_snapshot(
            env,
            child,
            &EscrowFeeSnapshot { fee_bps: 0, fee_amount: 0, collected: true },
        );
        Ok(child)
    }

    /// The parties split the unallocated amount of an escrow into two more.
    #[verifier::rlimit(40)]
    pub fn split_escrow(
        env: &mut Ledger,
        caller: Address,
        escrow_id: u64,
        split_amount: i128,
        new_brief_hash: Hash32,
    ) -> (r: Result<(u64, u64), EscrowError>)
        requires
            old(env)@.rent_ok(escrow_id),
            old(env)@.config.escrow_counter < u64::MAX - 1,
            old(env)@.room(2),
            old(env)@.has_meta(escrow_id) ==> {
                let m = old(env)@.meta(escrow_id);
                &&& m.buyer_signers.len() < u32::MAX
                &&& i128::MIN <= m.remaining_balance - m.allocated_amount <= i128::MAX
            },
        ensures
            answers(
                r,
                old(env)@,
                final(env)@,
                old(env)@.split(caller, escrow_id, split_amount, new_brief_hash),
            ),
    {
        let mut tx = env.dup();
        tx.require_auth(caller);
        ContractStorage::require_not_paused(&tx)?;
        let mut meta = ContractStorage::load_escrow_meta_with_rent(&mut tx, escrow_id)?;
        if meta.status != EscrowStatus::Active {
            return Err(EscrowError::E9);
        }
        if caller != meta.client {
            tx.require_auth(meta.client);
        }
        if caller != meta.freelancer {
            tx.require_auth(meta.freelancer);
        }
        let unallocated: i128 = meta.remaining_balance - meta.allocated_amount;
        if split_amount <= 0 || split_amount >= unallocated {
            return Err(EscrowError::E19);
        }
        if ContractStorage::has_payments_left(&tx, escrow_id) {
            return Err(EscrowError::E19);
        }
        let ghost m = meta@;
        meta.remaining_balance = meta.allocated_amount;
        meta.allotted_amount = match meta.allotted_amount.checked_sub(unallocated) {
            Some(a) => a,
            None => i128::MIN,
        };
        ContractStorage::save_escrow_meta(&mut tx, &meta);
        let ghost before = tx@;
        proof {
            assert(LedgerView::child(meta@, split_amount, new_brief_hash) == LedgerView::child(
                m,
                split_amount,
                new_brief_hash,
            ));
            assert forall|k: Address| (#[trigger] listed(tx@.book.by_participant, k)).len() + 2
                <= u32::MAX by {
                assert(listed(env@.book.by_participant, k).len() + 2 <= u32::MAX);
            }
            assert forall|k: EscrowStatus| (#[trigger] listed(tx@.book.by_status, k)).len() + 2
                <= u32::MAX by {
                assert(listed(env@.book.by_status, k).len() + 2 <= u32::MAX);
            }
            assert(tx@.room(2));
        }
        let child1: u64 = Self::create_child(&mut tx, &meta, split_amount, new_brief_hash)?;
        proof {
            lemma_created_room(
                before,
                LedgerView::child(meta@, split_amount, new_brief_hash),
                2,
            );
        }
        let child2: u64 = Self::create_child(
            &mut tx,
            &meta,
            unallocated - split_amount,
            new_brief_hash,
        )?;
        tx.publish(Event::EscrowSplit { escrow_id, child1, child2 });
        *env = tx;
        Ok((child1, child2))
    }

    /// The client takes back what no milestone claims.
    #[verifier::rlimit(40)]
    pub fn partial_cancel(
        env: &mut Ledger,
        caller: Address,
        escrow_id: u64,
    ) -> (r: Result<i128, EscrowError>)
        requires
            old(env)@.rent_ok(escrow_id),
        ensures
            answers(r, old(env)@, final(env)@, old(env)@.cancel_rest(caller, escrow_id)),
    {
        let mut tx = env.dup();
        tx.require_auth(caller);
        ContractStorage::require_not_paused(&tx)?;
        ContractStorage::require_not_frozen(&tx, escrow_id)?;
        ContractStorage::require_unlocked(&tx)?;
        let mut meta = ContractStorage::load_escrow_meta_with_rent(&mut tx, escrow_id)?;
        if caller != meta.client {
            return Err(EscrowError::E5);
        }
        if meta.status != EscrowStatus::Active {
            return Err(EscrowError::E9);
        }
        let rest: i128 = match meta.remaining_balance.checked_sub(meta.allocated_amount) {
            Some(x) => x,
            None => if meta.allocated_amount < 0 {
                i128::MAX
            } else {
                i128::MIN
            },
        };
        if rest <= 0 {
            *env = tx;
            return Ok(0);
        }
        tx.pay(meta.token, meta.client, rest);
        meta.remaining_balance = meta.remaining_balance - rest;
        ContractStorage::save_escrow_meta(&mut tx, &meta);
        tx.publish(Event::PartialCancellation { escrow_id, refund: rest });
        *env = tx;
        Ok(rest)
    }

    /// A party asks to cancel an escrow.
    #[verifier::rlimit(40)]
    pub fn request_cancellation(
        env: &mut Ledger,
        caller: Address,
        escrow_id: u64,
        reason: Text,
    ) -> (r: Result<(), EscrowError>)
        requires
            old(env)@.rent_ok(escrow_id),
            old(env)@.room(1),
            old(env)@.timestamp + CANCELLATION_DISPUTE_PERIOD <= u64::MAX,
        ensures
            answers(
                r,
                old(env)@,
                final(env)@,
                old(env)@.ask_cancellation(caller, escrow_id, reason@),
            ),
    {
        let mut tx = env.dup();
        tx.require_auth(caller);
        ContractStorage::require_initialized(&tx)?;
        ContractStorage::require_not_paused(&tx)?;
        let mut meta = ContractStorage::load_escrow_meta_with_rent(&mut tx, escrow_id)?;
        if caller != meta.client && caller != meta.freelancer {
            return Err(EscrowError::E3);
        }
        if reason.len() > MAX_STRING_LEN as usize {
            return Err(EscrowError::E19);
        }
        if meta.status != EscrowStatus::Active {
            return Err(EscrowError::E9);
        }
        if tx.book.cancellations.has(escrow_id) {
            return Err(EscrowError::E33);
        }
        let now: u64 = tx.timestamp;
        let dispute_deadline: u64 = now + CANCELLATION_DISPUTE_PERIOD;
        ContractStorage::charge_entry_rent(&mut tx, &mut meta, caller, 1)?;
        let request = CancellationRequest {
            escrow_id,
            requester: caller,
            reason,
            requested_at: now,
            dispute_deadline,
            disputed: false,
            counterparty_approved: false,
        };
        ContractStorage::save_cancellation_request(&mut tx, &request);
        meta.status = EscrowStatus::CancellationPending;
        assert(listed(env@.book.by_requester, caller).len() + 1 <= u32::MAX);
        append_id(&mut tx.book.by_requester, &tx.host, caller, escrow_id);
        assert(listed(env@.book.by_status, EscrowStatus::CancellationPending).len() + 1
            <= u32::MAX);
        ContractStorage::move_status(
            &mut tx,
            escrow_id,
            EscrowStatus::Active,
            EscrowStatus::CancellationPending,
        );
        ContractStorage::save_escrow_meta(&mut tx, &meta);
        tx.publish_text(
            Event::CancellationRequested { escrow_id, by: caller, dispute_deadline },
            &request.reason,
        );
        *env = tx;
        Ok(())
    }

    /// The other party agrees to a cancellation, which can then be carried out
    /// at once.
    pub fn client_approve_cancellation(
        env: &mut Ledger,
        caller: Address,
        escrow_id: u64,
    ) -> (r: Result<(), EscrowError>)
        requires
            old(env)@.rent_ok(escrow_id),
        ensures
            answers(r, old(env)@, final(env)@, old(env)@.agree_cancellation(caller, escrow_id)),
    {
        let mut tx = env.dup();
        tx.require_auth(caller);
        ContractStorage::require_initialized(&tx)?;
        ContractStorage::require_not_paused(&tx)?;
        let meta = ContractStorage::load_escrow_meta_with_rent(&mut tx, escrow_id)?;
        let mut request = ContractStorage::load_cancellation_request(&tx, escrow_id)?;
        let counterparty = if request.requester == meta.client {
            meta.freelancer
        } else {
            meta.client
        };
        if caller != counterparty {
            return Err(EscrowError::E3);
        }
        request.counterparty_approved = true;
        ContractStorage::save_cancellation_request(&mut tx, &request);
        tx.publish(Event::CancellationApproved { escrow_id, by: caller });
        *env = tx;
        Ok(())
    }

    /// The part of a balance that a cancellation costs.
    pub fn calculate_slash_amount(remaining_balance: i128) -> (r: i128)
        requires
            i128::MIN <= remaining_balance * SLASH_PERCENTAGE <= i128::MAX,
        ensures
            r == slash_part(remaining_balance as int),
    {
        remaining_balance * SLASH_PERCENTAGE as i128 / 100
    }

    /// Holds an amount against somebody.
    pub fn apply_slash(
        env: &mut Ledger,
        slashed_user: Address,
        recipient: Address,
        amount: i128,
        reason: Text,
        escrow_id: u64,
    ) -> (r: Result<(), EscrowError>)
        requires
            old(env)@.slash_fits(slashed_user, amount as int),
            listed(old(env)@.book.by_slashed, slashed_user).len() < u32::MAX,
        ensures
            answers(
                r,
                old(env)@,
                final(env)@,
                old(env)@.slash_applied(slashed_user, recipient, amount, reason@, escrow_id),
            ),
    {
        if env.book.slashes.has(escrow_id) {
            return Err(EscrowError::E41);
        }
        let mut reputation = ContractStorage::load_reputation(env, slashed_user);
        reputation.total_score = if reputation.total_score < 10 {
            0
        } else {
            reputation.total_score - 10
        };
        reputation.slash_count = reputation.slash_count + 1;
        reputation.total_slashed = reputation.total_slashed + amount;
        reputation.last_updated = env.timestamp;
        ContractStorage::save_reputation(env, &reputation);
        let slashed_at: u64 = env.timestamp;
        let record = SlashRecord {
            escrow_id,
            slashed_user,
            recipient,
            amount,
            reason,
            slashed_at,
            disputed: false,
        };
        ContractStorage::save_slash_record(env, &record);
        append_id(&mut env.book.by_slashed, &env.host, slashed_user, escrow_id);
        env.publish_text(
            Event::SlashApplied { escrow_id, slashed_user, recipient, amount },
            &record.reason,
        );
        Ok(())
    }

    /// Carries a cancellation out.
    #[verifier::rlimit(40)]
    pub fn execute_cancellation(env: &mut Ledger, escrow_id: u64) -> (r: Result<(), EscrowError>)
        requires
            old(env)@.rent_ok(escrow_id),
            old(env)@.room(1),
            old(env)@.cancellation_fits(escrow_id),
        ensures
            answers(r, old(env)@, final(env)@, old(env)@.execute_cancellation(escrow_id)),
    {
        let mut tx = env.dup();
        ContractStorage::require_initialized(&tx)?;
        ContractStorage::require_not_paused(&tx)?;
        ContractStorage::require_unlocked(&tx)?;
        let mut meta = ContractStorage::load_escrow_meta_with_rent(&mut tx, escrow_id)?;
        let request = ContractStorage::load_cancellation_request(&tx, escrow_id)?;
        if !request.counterparty_approved && tx.timestamp < request.dispute_deadline {
            return Err(EscrowError::E35);
        }
        if request.disputed {
            return Err(EscrowError::E37);
        }
        let slash_amount: i128 = Self::calculate_slash_amount(meta.remaining_balance);
        proof {
            lemma_slash_part(meta.remaining_balance as int);
            assert(listed(env@.book.by_slashed, request.requester).len() + 1 <= u32::MAX);
            assert(listed(env@.book.by_status, EscrowStatus::Cancelled).len() + 1 <= u32::MAX);
        }
        let rest: i128 = meta.remaining_balance - slash_amount;
        let recipient = if request.requester == meta.client {
            meta.freelancer
        } else {
            meta.client
        };
        let bytes: Vec<u8> = vec![
            69u8, 115u8, 99u8, 114u8, 111u8, 119u8, 32u8, 99u8, 97u8, 110u8, 99u8, 101u8, 108u8,
            108u8, 97u8, 116u8, 105u8, 111u8, 110u8,
        ];
        assert(bytes@ =~= slash_reason());
        Self::apply_slash(
            &mut tx,
            request.requester,
            recipient,
            slash_amount,
            Text { bytes },
            escrow_id,
        )?;
        if rest > 0 {
            tx.pay(meta.token, request.requester, rest);
        }
        meta.status = EscrowStatus::Cancelled;
        ContractStorage::record_state_change(
            &mut tx,
            escrow_id,
            EscrowStatus::Active,
            EscrowStatus::Cancelled,
            None,
        );
        meta.remaining_balance = 0;
        remove_id(&mut tx.book.by_requester, &tx.host, request.requester, escrow_id);
        ContractStorage::move_status(
            &mut tx,
            escrow_id,
            EscrowStatus::CancellationPending,
            EscrowStatus::Cancelled,
        );
        ContractStorage::save_escrow_meta(&mut tx, &meta);
        ContractStorage::remove_fee_snapshot(&mut tx, escrow_id);
        ContractStorage::remove_cancellation_request(&mut tx, escrow_id);
        tx.publish(
            Event::CancellationExecuted { escrow_id, requester_amount: rest, slash_amount },
        );
        *env = tx;
        Ok(())
    }

    /// The other party objects to a cancellation.
    #[verifier::rlimit(40)]
    pub fn dispute_cancellation(
        env: &mut Ledger,
        caller: Address,
        escrow_id: u64,
    ) -> (r: Result<(), EscrowError>)
        requires
            old(env)@.rent_ok(escrow_id),
            old(env)@.room(1),
        ensures
            answers(r, old(env)@, final(env)@, old(env)@.object_cancellation(caller, escrow_id)),
    {
        let mut tx = env.dup();
        tx.require_auth(caller);
        ContractStorage::require_initialized(&tx)?;
        ContractStorage::require_not_paused(&tx)?;
        let mut meta = ContractStorage::load_escrow_meta_with_rent(&mut tx, escrow_id)?;
        let mut request = ContractStorage::load_cancellation_request(&tx, escrow_id)?;
        if caller == request.requester || (caller != meta.client && caller != meta.freelancer) {
            return Err(EscrowError::E3);
        }
        if request.disputed {
            return Err(EscrowError::E34);
        }
        if tx.timestamp >= request.dispute_deadline {
            return Err(EscrowError::E36);
        }
        request.disputed = true;
        ContractStorage::save_cancellation_request(&mut tx, &request);
        meta.status = EscrowStatus::Disputed;
        meta.dispute_started_ledger = Some(tx.sequence);
        meta.dispute_start_ledger = Some(tx.timestamp);
        ContractStorage::record_state_change(
            &mut tx,
            escrow_id,
            EscrowStatus::CancellationPending,
            EscrowStatus::Disputed,
            Some(caller),
        );
        assert(listed(env@.book.by_status, EscrowStatus::Disputed).len() + 1 <= u32::MAX);
        ContractStorage::move_status(
            &mut tx,
            escrow_id,
            EscrowStatus::CancellationPending,
            EscrowStatus::Disputed,
        );
        ContractStorage::save_escrow_meta(&mut tx, &meta);
        tx.publish(Event::DisputeRaised { escrow_id, by: caller });
        *env = tx;
        Ok(())
    }

    /// Hands a held amount over.
    pub fn finalize_slash(env: &mut Ledger, escrow_id: u64) -> (r: Result<(), EscrowError>)
        requires
            old(env)@.slash_period_fits(escrow_id),
        ensures
            answers(r, old(env)@, final(env)@, old(env)@.finalize(escrow_id)),
    {
        let mut tx = env.dup();
        ContractStorage::require_initialized(&tx)?;
        ContractStorage::require_not_paused(&tx)?;
        ContractStorage::require_unlocked(&tx)?;
        let record = ContractStorage::load_slash_record(&tx, escrow_id)?;
        if record.disputed {
            return Err(EscrowError::E39);
        }
        if tx.timestamp < record.slashed_at + SLASH_DISPUTE_PERIOD {
            return Err(EscrowError::E40);
        }
        let meta = ContractStorage::load_escrow_meta(&tx, escrow_id)?;
        tx.pay(meta.token, record.recipient, record.amount);
        ContractStorage::remove_slash_record(&mut tx, escrow_id);
        tx.publish_text(
            Event::SlashApplied {
                escrow_id,
                slashed_user: record.slashed_user,
                recipient: record.recipient,
                amount: record.amount,
            },
            &record.reason,
        );
        *env = tx;
        Ok(())
    }

    /// Who was slashed disputes it.
    #[verifier::rlimit(40)]
    pub fn dispute_slash(
        env: &mut Ledger,
        caller: Address,
        escrow_id: u64,
    ) -> (r: Result<(), EscrowError>)
        requires
            old(env)@.rent_ok(escrow_id),
            old(env)@.slash_period_fits(escrow_id),
        ensures
            answers(r, old(env)@, final(env)@, old(env)@.object_slash(caller, escrow_id)),
    {
        let mut tx = env.dup();
        tx.require_auth(caller);
        ContractStorage::require_not_paused(&tx)?;
        ContractStorage::ensure_live_escrow(&mut tx, escrow_id)?;
        let mut record = ContractStorage::load_slash_record(&tx, escrow_id)?;
        if caller != record.slashed_user {
            return Err(EscrowError::E3);
        }
        if record.disputed {
            return Err(EscrowError::E39);
        }
        if tx.timestamp >= record.slashed_at + SLASH_DISPUTE_PERIOD {
            return Err(EscrowError::E40);
        }
        record.disputed = true;
        ContractStorage::save_slash_record(&mut tx, &record);
        tx.publish(Event::SlashDisputed { escrow_id, by: caller, amount: record.amount });
        *env = tx;
        Ok(())
    }

    /// The arbiter or the admin decides a disputed slash.
    #[verifier::rlimit(40)]
    pub fn resolve_slash_dispute(
        env: &mut Ledger,
        caller: Address,
        escrow_id: u64,
        upheld: bool,
    ) -> (r: Result<(), EscrowError>)
        requires
            old(env)@.rent_ok(escrow_id),
        ensures
            answers(
                r,
                old(env)@,
                final(env)@,
                old(env)@.resolve_slash(caller, escrow_id, upheld),
            ),
    {
        let mut tx = env.dup();
        tx.require_auth(caller);
        ContractStorage::require_not_paused(&tx)?;
        ContractStorage::require_unlocked(&tx)?;
        let record = ContractStorage::load_slash_record(&tx, escrow_id)?;
        let meta = ContractStorage::load_escrow_meta_with_rent(&mut tx, escrow_id)?;
        Self::check_judge(&tx, &meta, caller)?;
        if !record.disputed {
            return Err(EscrowError::E38);
        }
        if upheld {
            tx.pay(meta.token, record.recipient, record.amount);
        } else {
            tx.pay(meta.token, record.slashed_user, record.amount);
            let mut reputation = ContractStorage::load_reputation(&tx, record.slashed_user);
            if reputation.slash_count > 0 {
                reputation.slash_count = reputation.slash_count - 1;
            }
            reputation.total_slashed = match reputation.total_slashed.checked_sub(record.amount) {
                Some(x) => x,
                None => if record.amount < 0 {
                    i128::MAX
                } else {
                    i128::MIN
                },
            };
            reputation.total_score = match reputation.total_score.checked_add(10) {
                Some(x) => x,
                None => u64::MAX,
            };
            ContractStorage::save_reputation(&mut tx, &reputation);
        }
        tx.publish(Event::SlashDisputeResolved { escrow_id, upheld, amount: record.amount });
        ContractStorage::remove_slash_record(&mut tx, escrow_id);
        *env = tx;
        Ok(())
    }
}

} // verus!
