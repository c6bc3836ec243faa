//! Requests on several milestones at once, and releases by the admin.
use vstd::prelude::*;

use crate::constants::MAX_STRING_LEN;
use crate::contract::EscrowContract;
use crate::errors::EscrowError;
use crate::events::Event;
use crate::host::{Amounts, Weights};
use crate::index::listed;
use crate::ledger::{answers, attempts, Ledger, LedgerView, Outcome};
use crate::milestones::{fresh_milestone, one_less};
use crate::multisig::{accrued, has_signed, signature_weight};
use crate::release::{lemma_access_again, lemma_dependents_told};
use crate::storage::{reserve, ContractStorage};
use crate::store::Record;
use crate::types::{
    Address, ApprovalRecord, Approvals, EscrowMeta, EscrowStatus, Hash32, Hashes, MetaView,
    Milestone, MilestoneView, Texts, MS_APPROVED, MS_PENDING, MS_RELEASED, MS_SUBMITTED,
};

verus! {

/// The sum of the first `k` amounts, or what is wrong with the first of them
/// that cannot be added.
pub open spec fn batch_sum(titles: Seq<Seq<u8>>, amounts: Seq<i128>, k: nat) -> Result<
    i128,
    EscrowError,
>
    decreases k,
{
    if k == 0 {
        Ok(0)
    } else {
        match batch_sum(titles, amounts, (k - 1) as nat) {
            Err(e) => Err(e),
            Ok(sum) => if amounts[k - 1] <= 0 {
                Err(EscrowError::E17)
            } else if titles[k - 1].len() > MAX_STRING_LEN {
                Err(EscrowError::E19)
            } else if sum + amounts[k - 1] > i128::MAX {
                Err(EscrowError::E15)
            } else {
                Ok((sum + amounts[k - 1]) as i128)
            },
        }
    }
}

impl LedgerView {
    /// The state with the first `k` milestones of a batch written from the id
    /// `first` on.
    pub open spec fn batch_saved(
        self,
        id: u64,
        first: u32,
        titles: Seq<Seq<u8>>,
        hashes: Seq<Hash32>,
        amounts: Seq<i128>,
        k: nat,
    ) -> LedgerView
        decreases k,
    {
        if k == 0 {
            self
        } else {
            let mid = (first + k - 1) as u32;
            self.batch_saved(id, first, titles, hashes, amounts, (k - 1) as nat).saved_milestone(
                id,
                fresh_milestone(mid, titles[k - 1], hashes[k - 1], amounts[k - 1], None),
            ).told(
                Event::MilestoneAdded { escrow_id: id, milestone_id: mid, amount: amounts[k - 1] },
            )
        }
    }

    /// Adds several milestones; all of them or none. The answer is the id of the
    /// first; the others follow it.
    pub open spec fn batch_add(
        self,
        caller: Address,
        id: u64,
        titles: Seq<Seq<u8>>,
        hashes: Seq<Hash32>,
        amounts: Seq<i128>,
    ) -> Outcome<u32> {
        let n = titles.len();
        if self.config.paused {
            Err(EscrowError::E31)
        } else if self.is_frozen(id) {
            Err(EscrowError::E61)
        } else if n == 0 || n != hashes.len() || n != amounts.len() {
            Err(EscrowError::E17)
        } else {
            match self.authed(caller).accessed(id) {
                Err(e) => Err(e),
                Ok((env, m)) => if caller != m.client {
                    Err(EscrowError::E5)
                } else if m.status != EscrowStatus::Active {
                    Err(EscrowError::E9)
                } else if m.milestone_count + n > self.milestone_cap() {
                    Err(EscrowError::E16)
                } else {
                    match batch_sum(titles, amounts, n) {
                        Err(e) => Err(e),
                        Ok(sum) => if m.allocated_amount + sum > m.total_amount
                            || m.allocated_amount + sum > m.allotted_amount {
                            Err(EscrowError::E15)
                        } else if m.rent_balance + reserve(n as int) > i128::MAX {
                            Err(EscrowError::E20)
                        } else {
                            Ok(
                                (
                                    env.charged(
                                        m.token,
                                        caller,
                                        reserve(n as int) as i128,
                                    ).batch_saved(
                                        id,
                                        m.milestone_count,
                                        titles,
                                        hashes,
                                        amounts,
                                        n,
                                    ).saved_meta(
                                        MetaView {
                                            milestone_count: (m.milestone_count + n) as u32,
                                            allocated_amount: (m.allocated_amount + sum) as i128,
                                            rent_balance: (m.rent_balance + reserve(
                                                n as int,
                                            )) as i128,
                                            ..m
                                        },
                                    ),
                                    m.milestone_count,
                                ),
                            )
                        },
                    }
                },
            }
        }
    }

    /// What the first `k` milestones of a batch pay when the caller approves
    /// them, or why they cannot be approved. None may be named twice. Under a
    /// policy only those count whose threshold the caller's signature reaches.
    pub open spec fn batch_due(
        self,
        caller: Address,
        id: u64,
        m: MetaView,
        ids: Seq<u32>,
        k: nat,
    ) -> Result<i128, EscrowError>
        decreases k,
    {
        if k == 0 {
            Ok(0)
        } else {
            match self.batch_due(caller, id, m, ids, (k - 1) as nat) {
                Err(e) => Err(e),
                Ok(sum) => {
                    let mid = ids[k - 1];
                    let ms = self.milestone(id, mid);
                    let weight = accrued(m, ms.approvals) + signature_weight(m, caller);
                    if !self.has_milestone(id, mid) {
                        Err(EscrowError::E13)
                    } else if ms.status != MS_SUBMITTED || ids.take(k - 1).contains(mid) {
                        Err(EscrowError::E14)
                    } else if self.dependency_check(id, ms) is Err {
                        Err(self.dependency_check(id, ms)->Err_0)
                    } else if m.multisig_threshold > 0 && has_signed(ms.approvals, caller) {
                        Err(EscrowError::MultisigDuplicateApproval)
                    } else if m.multisig_threshold > 0 && weight > u32::MAX {
                        Err(EscrowError::E20)
                    } else if m.multisig_threshold > 0 && weight < m.multisig_threshold {
                        Ok(sum)
                    } else if !(i128::MIN <= sum + ms.amount <= i128::MAX) {
                        Err(EscrowError::E20)
                    } else {
                        Ok((sum + ms.amount) as i128)
                    }
                },
            }
        }
    }

    /// Marks one milestone of a batch: it is signed under a policy, and approved
    /// if it has the approval it needs. The answer is the escrow's header.
    pub open spec fn batch_mark(
        self,
        caller: Address,
        id: u64,
        m: MetaView,
        mid: u32,
        over: bool,
    ) -> Outcome<MetaView> {
        let policy = m.multisig_threshold > 0;
        let found = self.milestone(id, mid);
        let ms = if policy {
            self.signed(found, caller)
        } else {
            found
        };
        let weight = accrued(m, ms.approvals);
        if !self.has_milestone(id, mid) {
            Err(EscrowError::E13)
        } else if policy && weight > u32::MAX {
            Err(EscrowError::E20)
        } else {
            let noted = if policy {
                self.told(
                    Event::MultisigApprovalRecorded {
                        escrow_id: id,
                        milestone_id: mid,
                        signer: caller,
                        accrued: weight as u32,
                        threshold: m.multisig_threshold,
                    },
                )
            } else {
                self
            };
            if policy && weight < m.multisig_threshold {
                Ok((noted.saved_milestone(id, ms), m))
            } else if m.approved_count == u32::MAX || (over && m.released_count == u32::MAX) {
                Err(EscrowError::E20)
            } else {
                Ok(
                    (
                        noted.saved_milestone(
                            id,
                            MilestoneView {
                                resolved_at: Some(self.timestamp),
                                status: if over {
                                    MS_RELEASED
                                } else {
                                    MS_APPROVED
                                },
                                ..ms
                            },
                        ).dependents_told(id, mid).told(
                            Event::MilestoneApproved {
                                escrow_id: id,
                                milestone_id: mid,
                                amount: ms.amount,
                            },
                        ),
                        MetaView {
                            approved_count: (m.approved_count + 1) as u32,
                            submitted_count: one_less(m.submitted_count),
                            released_count: if over {
                                (m.released_count + 1) as u32
                            } else {
                                m.released_count
                            },
                            ..m
                        },
                    ),
                )
            }
        }
    }

    /// Marks the first `k` milestones of a batch, one after the other.
    pub open spec fn batch_marked(
        self,
        caller: Address,
        id: u64,
        m: MetaView,
        ids: Seq<u32>,
        over: bool,
        k: nat,
    ) -> Outcome<MetaView>
        decreases k,
    {
        if k == 0 {
            Ok((self, m))
        } else {
            match self.batch_marked(caller, id, m, ids, over, (k - 1) as nat) {
                Err(e) => Err(e),
                Ok((env, m2)) => env.batch_mark(caller, id, m2, ids[k - 1], over),
            }
        }
    }

    /// The state after a batch of an escrow was marked: what is due is paid at
    /// once, and the escrow is completed if nothing is left to release.
    pub open spec fn batch_closed(
        self,
        caller: Address,
        id: u64,
        m: MetaView,
        over: bool,
        due: i128,
    ) -> Outcome<i128> {
        let pays = over && due > 0;
        if pays && self.terms_check(id, m) is Err {
            self.terms_check(id, m)->Err_0.refused()
        } else if pays && self.slippage_check(m) is Err {
            self.slippage_check(m)->Err_0.refused()
        } else if pays && !(i128::MIN <= m.remaining_balance - due) {
            Err(EscrowError::E20)
        } else {
            let paid = if pays {
                self.paid(m.token, m.freelancer, due).told(
                    Event::FundsReleased { escrow_id: id, to: m.freelancer, amount: due },
                )
            } else {
                self
            };
            let done = m.released_count == m.milestone_count && m.milestone_count > 0
                && !self.scheduled(id);
            let ended = if done {
                paid.finished(id, Some(caller))
            } else {
                paid
            };
            Ok(
                (
                    ended.saved_meta(
                        MetaView {
                            remaining_balance: if pays {
                                (m.remaining_balance - due) as i128
                            } else {
                                m.remaining_balance
                            },
                            status: if done {
                                EscrowStatus::Completed
                            } else {
                                m.status
                            },
                            ..m
                        },
                    ),
                    due,
                ),
            )
        }
    }

    /// Approves several submitted milestones; all of them or none. The answer is
    /// what they pay.
    pub open spec fn batch_approve(self, caller: Address, id: u64, ids: Seq<u32>) -> Outcome<i128> {
        if self.config.paused {
            Err(EscrowError::E31)
        } else if ids.len() == 0 {
            Err(EscrowError::E17)
        } else if self.config.reentrancy_lock {
            Err(EscrowError::E22)
        } else {
            match self.authed(caller).accessed(id) {
                Err(e) => Err(e),
                Ok((seen, m)) => if m.status != EscrowStatus::Active {
                    Err(EscrowError::E9)
                } else {
                    match seen.unlocked(id, m.lock_time) {
                        Err(e) => Err(e),
                        Ok((open, _)) => {
                            let over = open.timelock_over(id, m.timelock) is Ok;
                            let env = open.timelock_seen(id, m.timelock);
                            if open.approver_check(m, caller) is Err {
                                open.approver_check(m, caller)->Err_0.refused()
                            } else {
                                match env.batch_due(caller, id, m, ids, ids.len()) {
                                    Err(e) => Err(e),
                                    Ok(due) => match env.batch_marked(
                                        caller,
                                        id,
                                        m,
                                        ids,
                                        over,
                                        ids.len(),
                                    ) {
                                        Err(e) => Err(e),
                                        Ok((marked, m2)) => marked.batch_closed(
                                            caller,
                                            id,
                                            m2,
                                            over,
                                            due,
                                        ),
                                    },
                                }
                            }
                        },
                    }
                },
            }
        }
    }

    /// What the first `k` of several approved milestones pay, or why they cannot
    /// be released. None may be named twice.
    pub open spec fn release_due(self, id: u64, ids: Seq<u32>, k: nat) -> Result<i128, EscrowError>
        decreases k,
    {
        if k == 0 {
            Ok(0)
        } else {
            match self.release_due(id, ids, (k - 1) as nat) {
                Err(e) => Err(e),
                Ok(sum) => {
                    let ms = self.milestone(id, ids[k - 1]);
                    if !self.has_milestone(id, ids[k - 1]) {
                        Err(EscrowError::E13)
                    } else if ms.status != MS_APPROVED || ids.take(k - 1).contains(ids[k - 1]) {
                        Err(EscrowError::E14)
                    } else if !(i128::MIN <= sum + ms.amount <= i128::MAX) {
                        Err(EscrowError::E20)
                    } else {
                        Ok((sum + ms.amount) as i128)
                    }
                },
            }
        }
    }

    /// The state with the first `k` of several milestones marked as released.
    pub open spec fn release_marked(self, id: u64, to: Address, ids: Seq<u32>, k: nat) -> LedgerView
        decreases k,
    {
        if k == 0 {
            self
        } else {
            let env = self.release_marked(id, to, ids, (k - 1) as nat);
            let ms = env.milestone(id, ids[k - 1]);
            env.saved_milestone(id, MilestoneView { status: MS_RELEASED, ..ms }).told(
                Event::FundsReleased { escrow_id: id, to, amount: ms.amount },
            )
        }
    }

    /// The fee that is due with the last release of an escrow.
    pub open spec fn last_fee(self, id: u64, token: Address, last: bool) -> Outcome<i128> {
        if last {
            self.fee_settled(id, token)
        } else {
            Ok((self, 0i128))
        }
    }

    /// The admin releases several approved milestones; all of them or none. The
    /// answer is what they pay.
    pub open spec fn batch_release(self, caller: Address, id: u64, ids: Seq<u32>) -> Outcome<i128> {
        let n = ids.len();
        if self.config.admin is None {
            Err(EscrowError::E2)
        } else if self.config.paused {
            Err(EscrowError::E31)
        } else if self.config.reentrancy_lock {
            Err(EscrowError::E22)
        } else if self.config.admin != Some(caller) {
            Err(EscrowError::E4)
        } else if n == 0 {
            Err(EscrowError::E17)
        } else {
            match self.authed(caller).accessed(id) {
                Err(e) => Err(e),
                Ok((seen, m)) => if m.status != EscrowStatus::Active {
                    Err(EscrowError::E9)
                } else if seen.unlocked(id, m.lock_time) is Err {
                    seen.unlocked(id, m.lock_time)->Err_0.refused()
                } else if seen.terms_check(id, m) is Err {
                    seen.terms_check(id, m)->Err_0.refused()
                } else if seen.slippage_check(m) is Err {
                    seen.slippage_check(m)->Err_0.refused()
                } else {
                    let env = seen.lock_seen(id, m.lock_time);
                    match env.release_due(id, ids, n) {
                        Err(e) => Err(e),
                        Ok(due) => if m.released_count + n > u32::MAX || !(i128::MIN
                            <= m.remaining_balance - due <= i128::MAX) {
                            Err(EscrowError::E20)
                        } else {
                            let done = m.released_count + n == m.milestone_count
                                && !self.scheduled(id);
                            let marked = env.release_marked(id, m.freelancer, ids, n);
                            match marked.last_fee(id, m.token, done) {
                                Err(e) => Err(e),
                                Ok((feed, _)) => {
                                    let paid = feed.paid(m.token, m.freelancer, due);
                                    let ended = if done {
                                        paid.finished(id, Some(caller))
                                    } else {
                                        paid
                                    };
                                    Ok(
                                        (
                                            ended.saved_meta(
                                                MetaView {
                                                    released_count: (m.released_count + n) as u32,
                                                    remaining_balance: (m.remaining_balance
                                                        - due) as i128,
                                                    status: if done {
                                                        EscrowStatus::Completed
                                                    } else {
                                                        m.status
                                                    },
                                                    ..m
                                                },
                                            ),
                                            due,
                                        ),
                                    )
                                },
                            }
                        },
                    }
                },
            }
        }
    }

    /// The client has accepted the terms, where an escrow has some.
    pub open spec fn terms_check(self, id: u64, m: MetaView) -> Result<(), EscrowError> {
        if m.terms_hash is Some && !(self.book.terms.contains_key(id)
            && self.book.terms[id].accepted) {
            Err(EscrowError::ClientHasNotAcceptedTerms)
        } else {
            Ok(())
        }
    }

    /// Pays an approved milestone that may be released. The escrow is completed
    /// with its last release.
    pub open spec fn release_paid(
        self,
        caller: Address,
        id: u64,
        mid: u32,
        m: MetaView,
        ms: MilestoneView,
    ) -> Outcome<()> {
        let done = m.released_count + 1 == m.milestone_count && !self.scheduled(id);
        match self.last_fee(id, m.token, done) {
            Err(e) => Err(e),
            Ok((feed, _)) => if feed.slippage_check(m) is Err {
                feed.slippage_check(m)->Err_0.refused()
            } else if !(i128::MIN <= m.remaining_balance - ms.amount <= i128::MAX) {
                Err(EscrowError::E20)
            } else {
                let shown = feed.paid(m.token, m.freelancer, ms.amount).saved_milestone(
                    id,
                    MilestoneView { status: MS_RELEASED, ..ms },
                ).dependents_told(id, mid);
                let ended = if done {
                    shown.finished(id, Some(caller))
                } else {
                    shown
                };
                Ok(
                    (
                        ended.saved_meta(
                            MetaView {
                                remaining_balance: (m.remaining_balance - ms.amount) as i128,
                                released_count: (m.released_count + 1) as u32,
                                status: if done {
                                    EscrowStatus::Completed
                                } else {
                                    m.status
                                },
                                ..m
                            },
                        ).told(
                            Event::FundsReleased {
                                escrow_id: id,
                                to: m.freelancer,
                                amount: ms.amount,
                            },
                        ),
                        (),
                    ),
                )
            },
        }
    }

    /// The admin releases an approved milestone of an active escrow, whether its
    /// timelock is over or not.
    pub open spec fn release(self, caller: Address, id: u64, mid: u32) -> Outcome<()> {
        let base = self.authed(caller);
        let ms = self.milestone(id, mid);
        if self.config.admin is None {
            Err(EscrowError::E2)
        } else if self.config.paused {
            Err(EscrowError::E31)
        } else if self.is_frozen(id) {
            Err(EscrowError::E61)
        } else if self.config.reentrancy_lock {
            Err(EscrowError::E22)
        } else if !self.has_milestone(id, mid) {
            Err(EscrowError::E13)
        } else if ms.status != MS_APPROVED {
            Err(EscrowError::E14)
        } else if base.dependency_check(id, ms) is Err {
            base.dependency_check(id, ms)->Err_0.refused()
        } else {
            match base.accessed(id) {
                Err(e) => Err(e),
                Ok((seen, m)) => {
                    if self.config.admin != Some(caller) {
                        Err(EscrowError::E4)
                    } else if m.status != EscrowStatus::Active {
                        Err(EscrowError::E9)
                    } else {
                        match seen.timelock_seen(id, m.timelock).unlocked(id, m.lock_time) {
                            Err(e) => Err(e),
                            Ok((env, _)) => if env.terms_check(id, m) is Err {
                                env.terms_check(id, m)->Err_0.refused()
                            } else {
                                env.release_paid(caller, id, mid, m, ms)
                            },
                        }
                    }
                },
            }
        }
    }
}

/// A batch that cannot be summed up to some place cannot be summed further.
proof fn lemma_batch_sum_err(titles: Seq<Seq<u8>>, amounts: Seq<i128>, j: nat, k: nat)
    requires
        j <= k,
        batch_sum(titles, amounts, j) is Err,
    ensures
        batch_sum(titles, amounts, k) == batch_sum(titles, amounts, j),
    decreases k,
{
    if j < k {
        lemma_batch_sum_err(titles, amounts, j, (k - 1) as nat);
    }
}

/// A batch sums up to something that is not negative.
pub proof fn lemma_batch_sum_pos(titles: Seq<Seq<u8>>, amounts: Seq<i128>, k: nat)
    ensures
        batch_sum(titles, amounts, k) matches Ok(sum) ==> sum >= 0,
    decreases k,
{
    if k > 0 {
        lemma_batch_sum_pos(titles, amounts, (k - 1) as nat);
    }
}

/// A batch that one of its milestones stops is stopped whatever follows.
pub proof fn lemma_batch_due_err(
    env: LedgerView,
    caller: Address,
    id: u64,
    m: MetaView,
    ids: Seq<u32>,
    j: nat,
    k: nat,
)
    requires
        j <= k,
        env.batch_due(caller, id, m, ids, j) is Err,
    ensures
        env.batch_due(caller, id, m, ids, k) == env.batch_due(caller, id, m, ids, j),
    decreases k,
{
    if j < k {
        lemma_batch_due_err(env, caller, id, m, ids, j, (k - 1) as nat);
    }
}

proof fn lemma_batch_marked_err(
    env: LedgerView,
    caller: Address,
    id: u64,
    m: MetaView,
    ids: Seq<u32>,
    over: bool,
    j: nat,
    k: nat,
)
    requires
        j <= k,
        env.batch_marked(caller, id, m, ids, over, j) is Err,
    ensures
        env.batch_marked(caller, id, m, ids, over, k) == env.batch_marked(
            caller,
            id,
            m,
            ids,
            over,
            j,
        ),
    decreases k,
{
    if j < k {
        lemma_batch_marked_err(env, caller, id, m, ids, over, j, (k - 1) as nat);
    }
}

/// So is a batch that is released.
pub proof fn lemma_release_due_err(env: LedgerView, id: u64, ids: Seq<u32>, j: nat, k: nat)
    requires
        j <= k,
        env.release_due(id, ids, j) is Err,
    ensures
        env.release_due(id, ids, k) == env.release_due(id, ids, j),
    decreases k,
{
    if j < k {
        lemma_release_due_err(env, id, ids, j, (k - 1) as nat);
    }
}

/// Marking milestones as released leaves all of them where they are.
proof fn lemma_release_marked(env: LedgerView, id: u64, to: Address, ids: Seq<u32>, n: nat, k: nat)
    requires
        k <= n <= ids.len(),
        env.release_due(id, ids, n) is Ok,
    ensures
        forall|i: int|
            0 <= i < n ==> env.release_marked(id, to, ids, k).has_milestone(
                id,
                #[trigger] ids[i],
            ),
        env.release_marked(id, to, ids, k) == env.release_marked(id, to, ids, k).with_book(
            crate::ledger::BookView {
                milestones: env.release_marked(id, to, ids, k).book.milestones,
                ..env.book
            },
        ),
        env.release_marked(id, to, ids, k).config == env.config,
        env.release_marked(id, to, ids, k).contract == env.contract,
        env.release_marked(id, to, ids, k).timestamp == env.timestamp,
    decreases k,
{
    if k > 0 {
        lemma_release_marked(env, id, to, ids, n, (k - 1) as nat);
    } else {
        assert forall|i: int| 0 <= i < n implies env.has_milestone(id, #[trigger] ids[i]) by {
            lemma_release_due_prefix(env, id, ids, (i + 1) as nat, n);
        }
    }
}

proof fn lemma_release_due_prefix(env: LedgerView, id: u64, ids: Seq<u32>, j: nat, n: nat)
    requires
        j <= n,
        env.release_due(id, ids, n) is Ok,
    ensures
        env.release_due(id, ids, j) is Ok,
{
    if env.release_due(id, ids, j) is Err {
        lemma_release_due_err(env, id, ids, j, n);
    }
}

impl EscrowContract {
    /// Adds several milestones at once.
    #[verifier::rlimit(40)]
    pub fn batch_add_milestones(
        env: &mut Ledger,
        caller: Address,
        escrow_id: u64,
        titles: &Texts,
        description_hashes: &Hashes,
        amounts: &Amounts,
    ) -> (r: Result<u32, EscrowError>)
        requires
            old(env)@.rent_ok(escrow_id),
        ensures
            answers(
                r,
                old(env)@,
                final(env)@,
                old(env)@.batch_add(caller, escrow_id, titles@, description_hashes@, amounts@),
            ),
    {
        let mut tx = env.dup();
        tx.require_auth(caller);
        ContractStorage::require_not_paused(&tx)?;
        ContractStorage::require_not_frozen(&tx, escrow_id)?;
        let n: u32 = amounts.len();
        if n == 0 || titles.items.len() != n as usize || description_hashes.items.len()
            != n as usize {
            return Err(EscrowError::E17);
        }
        let mut meta = ContractStorage::load_escrow_meta_with_rent(&mut tx, escrow_id)?;
        if caller != meta.client {
            return Err(EscrowError::E5);
        }
        if meta.status != EscrowStatus::Active {
            return Err(EscrowError::E9);
        }
        let first_id: u32 = meta.milestone_count;
        let cap: u32 = Self::milestone_limit(&tx);
        if first_id > cap || n > cap - first_id {
            return Err(EscrowError::E16);
        }
        let mut sum: i128 = 0;
        let mut i: u32 = 0;
        while i < n
            invariant
                i <= n,
                n == amounts@.len(),
                n == titles@.len(),
                batch_sum(titles@, amounts@, i as nat) == Ok::<i128, EscrowError>(sum),
                caller == meta.client,
                meta.status == EscrowStatus::Active,
                first_id == meta.milestone_count,
                first_id + n <= cap,
                cap == env@.milestone_cap(),
                n > 0,
                n == description_hashes@.len(),
                !env@.config.paused,
                !env@.is_frozen(escrow_id),
                env@ == old(env)@,
                env@.authed(caller).accessed(escrow_id) == Ok::<(
                    LedgerView,
                    MetaView,
                ), EscrowError>(
                    (tx@, meta@),
                ),
            decreases n - i,
        {
            proof {
                lemma_batch_sum_pos(titles@, amounts@, i as nat);
                if batch_sum(titles@, amounts@, (i + 1) as nat) is Err {
                    lemma_batch_sum_err(titles@, amounts@, (i + 1) as nat, n as nat);
                }
            }
            let amount: i128 = match amounts.get(i) {
                None => {
                    return Err(EscrowError::E17);
                },
                Some(a) => a,
            };
            if amount <= 0 {
                return Err(EscrowError::E17);
            }
            if titles.items[i as usize].len() > MAX_STRING_LEN as usize {
                return Err(EscrowError::E19);
            }
            match sum.checked_add(amount) {
                None => {
                    return Err(EscrowError::E15);
                },
                Some(s) => {
                    sum = s;
                },
            }
            i = i + 1;
        }
        proof {
            lemma_batch_sum_pos(titles@, amounts@, n as nat);
        }
        let next_allocated: i128 = match meta.allocated_amount.checked_add(sum) {
            None => {
                return Err(EscrowError::E15);
            },
            Some(a) => a,
        };
        if next_allocated > meta.total_amount || next_allocated > meta.allotted_amount {
            return Err(EscrowError::E15);
        }
        ContractStorage::charge_entry_rent(&mut tx, &mut meta, caller, n as i128)?;
        meta.allocated_amount = next_allocated;
        let ghost base = tx@;
        let mut i: u32 = 0;
        while i < n
            invariant
                i <= n,
                n == amounts@.len(),
                n == titles@.len(),
                n == description_hashes@.len(),
                first_id + n <= u32::MAX,
                tx@ == base.batch_saved(
                    escrow_id,
                    first_id,
                    titles@,
                    description_hashes@,
                    amounts@,
                    i as nat,
                ),
            decreases n - i,
        {
            let milestone_id: u32 = first_id + i;
            let amount: i128 = match amounts.get(i) {
                None => {
                    assert(false);
                    0
                },
                Some(a) => a,
            };
            let milestone = Milestone {
                id: milestone_id,
                title: titles.items[i as usize].dup(),
                description_hash: description_hashes.items[i as usize],
                amount,
                status: MS_PENDING,
                submitted_at: None,
                resolved_at: None,
                approvals: Approvals::new(),
                rejection_reason: None,
                price_condition: None,
                depends_on: None,
            };
            assert(milestone@ == fresh_milestone(
                milestone_id,
                titles@[i as int],
                description_hashes@[i as int],
                amounts@[i as int],
                None,
            ));
            ContractStorage::save_milestone(&mut tx, escrow_id, &milestone);
            tx.publish(Event::MilestoneAdded { escrow_id, milestone_id, amount });
            i = i + 1;
        }
        meta.milestone_count = first_id + n;
        ContractStorage::save_escrow_meta(&mut tx, &meta);
        *env = tx;
        Ok(first_id)
    }

    /// Whether a milestone is named before a position of a batch.
    fn named_before(ids: &Weights, n: u32, mid: u32) -> (r: bool)
        requires
            n <= ids@.len(),
        ensures
            r == ids@.take(n as int).contains(mid),
    {
        let mut i: u32 = 0;
        while i < n
            invariant
                i <= n,
                n <= ids@.len(),
                forall|j: int| 0 <= j < i ==> ids@[j] != mid,
            decreases n - i,
        {
            if ids.get(i) == Some(mid) {
                assert(ids@.take(n as int)[i as int] == mid);
                return true;
            }
            i = i + 1;
        }
        false
    }

    /// Sums up what a batch pays, and finds out whether it can be approved.
    fn sum_batch(
        env: &Ledger,
        caller: Address,
        escrow_id: u64,
        meta: &EscrowMeta,
        milestone_ids: &Weights,
    ) -> (r: Result<i128, EscrowError>)
        ensures
            r == env@.batch_due(
                caller,
                escrow_id,
                meta@,
                milestone_ids@,
                milestone_ids@.len(),
            ),
    {
        let n: u32 = milestone_ids.len();
        let caller_weight: u32 = match Self::approver_weight(meta, caller) {
            Some(w) => w,
            None => 0,
        };
        let mut sum: i128 = 0;
        let mut i: u32 = 0;
        while i < n
            invariant
                i <= n,
                n == milestone_ids@.len(),
                caller_weight == signature_weight(meta@, caller),
                env@.batch_due(caller, escrow_id, meta@, milestone_ids@, i as nat) == Ok::<
                    i128,
                    EscrowError,
                >(sum),
            decreases n - i,
        {
            proof {
                if env@.batch_due(caller, escrow_id, meta@, milestone_ids@, (i + 1) as nat) is Err {
                    lemma_batch_due_err(
                        env@,
                        caller,
                        escrow_id,
                        meta@,
                        milestone_ids@,
                        (i + 1) as nat,
                        n as nat,
                    );
                }
            }
            let mid: u32 = match milestone_ids.get(i) {
                None => {
                    return Err(EscrowError::E13);
                },
                Some(x) => x,
            };
            let m = ContractStorage::load_milestone(env, escrow_id, mid)?;
            if m.status != MS_SUBMITTED || Self::named_before(milestone_ids, i, mid) {
                return Err(EscrowError::E14);
            }
            Self::require_dependency_satisfied(env, escrow_id, &m)?;
            let mut counts = true;
            if meta.multisig_threshold > 0 {
                if Self::signed_by(&m, caller) {
                    return Err(EscrowError::MultisigDuplicateApproval);
                }
                let so_far: u32 = Self::accrued_approval_weight(meta, &m)?;
                let prospective: u32 = match so_far.checked_add(caller_weight) {
                    None => {
                        return Err(EscrowError::E20);
                    },
                    Some(p) => p,
                };
                counts = prospective >= meta.multisig_threshold;
            }
            if counts {
                match sum.checked_add(m.amount) {
                    None => {
                        return Err(EscrowError::E20);
                    },
                    Some(s) => {
                        sum = s;
                    },
                }
            }
            i = i + 1;
        }
        Ok(sum)
    }

    /// Marks one milestone of a batch.
    fn mark_one(
        env: &mut Ledger,
        caller: Address,
        escrow_id: u64,
        meta: &mut EscrowMeta,
        mid: u32,
        over: bool,
    ) -> (r: Result<(), EscrowError>)
        requires
            old(env)@.rent_ok(escrow_id),
        ensures
            match old(env)@.batch_mark(caller, escrow_id, old(meta)@, mid, over) {
                Err(e) => r == Err::<(), EscrowError>(e),
                Ok((post, m)) => r == Ok::<(), EscrowError>(()) && final(env)@ == post
                    && final(meta)@ == m && final(env)@.rent_ok(escrow_id) && post.prices == old(
                    env,
                )@.prices && post.book.by_status == old(env)@.book.by_status,
            },
    {
        let now: u64 = env.timestamp;
        let mut m = ContractStorage::load_milestone(env, escrow_id, mid)?;
        if meta.multisig_threshold > 0 {
            m.approvals.items.push(ApprovalRecord { signer: caller, approved_at: now });
            let weight: u32 = Self::accrued_approval_weight(meta, &m)?;
            env.publish(
                Event::MultisigApprovalRecorded {
                    escrow_id,
                    milestone_id: mid,
                    signer: caller,
                    accrued: weight,
                    threshold: meta.multisig_threshold,
                },
            );
            if weight < meta.multisig_threshold {
                ContractStorage::save_milestone(env, escrow_id, &m);
                return Ok(());
            }
        }
        if meta.approved_count == u32::MAX || (over && meta.released_count == u32::MAX) {
            return Err(EscrowError::E20);
        }
        m.resolved_at = Some(now);
        m.status = if over {
            MS_RELEASED
        } else {
            MS_APPROVED
        };
        ContractStorage::save_milestone(env, escrow_id, &m);
        proof {
            lemma_dependents_told(env@, escrow_id, mid);
        }
        Self::emit_dependents_unlocked(env, escrow_id, mid);
        meta.approved_count = meta.approved_count + 1;
        if meta.submitted_count > 0 {
            meta.submitted_count = meta.submitted_count - 1;
        }
        if over {
            meta.released_count = meta.released_count + 1;
        }
        env.publish(Event::MilestoneApproved { escrow_id, milestone_id: mid, amount: m.amount });
        Ok(())
    }

    /// Pays what a batch comes to and completes the escrow if nothing is left.
    fn close_batch(
        env: &mut Ledger,
        caller: Address,
        escrow_id: u64,
        meta: EscrowMeta,
        over: bool,
        due: i128,
    ) -> (r: Result<i128, EscrowError>)
        requires
            old(env)@.slippage_fits(meta@),
            listed(old(env)@.book.by_status, EscrowStatus::Completed).len() < u32::MAX,
        ensures
            attempts(
                r,
                final(env)@,
                old(env)@.batch_closed(caller, escrow_id, meta@, over, due),
            ),
    {
        let mut meta = meta;
        if over && due > 0 {
            Self::check_terms(env, escrow_id, &meta)?;
            ContractStorage::check_slippage(env, &meta)?;
            match meta.remaining_balance.checked_sub(due) {
                None => {
                    return Err(EscrowError::E20);
                },
                Some(b) => {
                    meta.remaining_balance = b;
                },
            }
            env.pay(meta.token, meta.freelancer, due);
            env.publish(Event::FundsReleased { escrow_id, to: meta.freelancer, amount: due });
        }
        if meta.released_count == meta.milestone_count && meta.milestone_count > 0
            && !ContractStorage::has_payments_left(env, escrow_id) {
            meta.status = EscrowStatus::Completed;
            Self::finish(env, escrow_id, Some(caller));
        }
        ContractStorage::save_escrow_meta(env, &meta);
        Ok(due)
    }

    /// Approves several submitted milestones at once.
    #[verifier::rlimit(40)]
    pub fn batch_approve_milestones(
        env: &mut Ledger,
        caller: Address,
        escrow_id: u64,
        milestone_ids: &Weights,
    ) -> (r: Result<i128, EscrowError>)
        requires
            old(env)@.rent_ok(escrow_id),
            old(env)@.slippage_ok(escrow_id),
            old(env)@.room(1),
        ensures
            answers(
                r,
                old(env)@,
                final(env)@,
                old(env)@.batch_approve(caller, escrow_id, milestone_ids@),
            ),
    {
        let mut tx = env.dup();
        tx.require_auth(caller);
        ContractStorage::require_not_paused(&tx)?;
        let n: u32 = milestone_ids.len();
        if n == 0 {
            return Err(EscrowError::E17);
        }
        ContractStorage::require_unlocked(&tx)?;
        let ghost asked = tx@;
        let mut meta = ContractStorage::load_escrow_meta_with_rent(&mut tx, escrow_id)?;
        proof {
            lemma_access_again(asked, escrow_id);
        }
        if meta.status != EscrowStatus::Active {
            return Err(EscrowError::E9);
        }
        ContractStorage::check_lock_time_expired(&mut tx, escrow_id, meta.lock_time)?;
        Self::check_approver(&tx, &meta, caller)?;
        let over = ContractStorage::check_timelock_expired(
            &mut tx,
            escrow_id,
            meta.timelock,
        ).is_ok();
        let due: i128 = Self::sum_batch(&tx, caller, escrow_id, &meta, milestone_ids)?;
        let ghost base = tx@;
        let ghost m0 = meta@;
        let ghost ids = milestone_ids@;
        let mut i: u32 = 0;
        let mut failed: Option<EscrowError> = None;
        while i < n && failed.is_none()
            invariant
                i <= n,
                n == ids.len(),
                ids == milestone_ids@,
                failed is None ==> base.batch_marked(caller, escrow_id, m0, ids, over, i as nat)
                    == Ok::<(LedgerView, MetaView), EscrowError>((tx@, meta@)),
                failed is None ==> tx@.rent_ok(escrow_id),
                failed is None ==> tx@.prices == base.prices,
                failed is None ==> tx@.book.by_status == base.book.by_status,
                failed is None ==> meta@.token == m0.token && meta@.slippage_bps == m0.slippage_bps
                    && meta@.slippage_reference_price == m0.slippage_reference_price,
                failed matches Some(e) ==> base.batch_marked(
                    caller,
                    escrow_id,
                    m0,
                    ids,
                    over,
                    n as nat,
                ) == Err::<(LedgerView, MetaView), EscrowError>(e),
            decreases n - i,
        {
            proof {
                if base.batch_marked(caller, escrow_id, m0, ids, over, (i + 1) as nat) is Err {
                    lemma_batch_marked_err(
                        base,
                        caller,
                        escrow_id,
                        m0,
                        ids,
                        over,
                        (i + 1) as nat,
                        n as nat,
                    );
                }
            }
            match milestone_ids.get(i) {
                None => {
                    assert(false);
                },
                Some(mid) => {
                    match Self::mark_one(&mut tx, caller, escrow_id, &mut meta, mid, over) {
                        Ok(()) => {},
                        Err(e) => {
                            failed = Some(e);
                        },
                    }
                },
            }
            i = i + 1;
        }
        if let Some(e) = failed {
            return Err(e);
        }
        assert(listed(env@.book.by_status, EscrowStatus::Completed).len() + 1 <= u32::MAX);
        let paid: i128 = Self::close_batch(&mut tx, caller, escrow_id, meta, over, due)?;
        *env = tx;
        Ok(paid)
    }

    /// Sums up what several approved milestones pay.
    fn sum_release(
        env: &Ledger,
        escrow_id: u64,
        milestone_ids: &Weights,
    ) -> (r: Result<i128, EscrowError>)
        ensures
            r == env@.release_due(escrow_id, milestone_ids@, milestone_ids@.len()),
    {
        let n: u32 = milestone_ids.len();
        let mut sum: i128 = 0;
        let mut i: u32 = 0;
        while i < n
            invariant
                i <= n,
                n == milestone_ids@.len(),
                env@.release_due(escrow_id, milestone_ids@, i as nat) == Ok::<i128, EscrowError>(
                    sum,
                ),
            decreases n - i,
        {
            proof {
                if env@.release_due(escrow_id, milestone_ids@, (i + 1) as nat) is Err {
                    lemma_release_due_err(
                        env@,
                        escrow_id,
                        milestone_ids@,
                        (i + 1) as nat,
                        n as nat,
                    );
                }
            }
            let mid: u32 = match milestone_ids.get(i) {
                None => {
                    return Err(EscrowError::E13);
                },
                Some(x) => x,
            };
            let m = ContractStorage::load_milestone(env, escrow_id, mid)?;
            if m.status != MS_APPROVED || Self::named_before(milestone_ids, i, mid) {
                return Err(EscrowError::E14);
            }
            match sum.checked_add(m.amount) {
                None => {
                    return Err(EscrowError::E20);
                },
                Some(s) => {
                    sum = s;
                },
            }
            i = i + 1;
        }
        Ok(sum)
    }

    /// The fee that is due with the last release of an escrow.
    fn settle_last_fee(
        env: &mut Ledger,
        escrow_id: u64,
        token: Address,
        last: bool,
    ) -> (r: Result<i128, EscrowError>)
        ensures
            answers(r, old(env)@, final(env)@, old(env)@.last_fee(escrow_id, token, last)),
    {
        if last {
            Self::collect_platform_fee(env, escrow_id, token)
        } else {
            Ok(0)
        }
    }

    /// The admin releases several approved milestones at once.
    #[verifier::rlimit(40)]
    pub fn batch_release_funds(
        env: &mut Ledger,
        caller: Address,
        escrow_id: u64,
        milestone_ids: &Weights,
    ) -> (r: Result<i128, EscrowError>)
        requires
            old(env)@.rent_ok(escrow_id),
            old(env)@.slippage_ok(escrow_id),
            old(env)@.room(1),
        ensures
            answers(
                r,
                old(env)@,
                final(env)@,
                old(env)@.batch_release(caller, escrow_id, milestone_ids@),
            ),
    {
        let mut tx = env.dup();
        ContractStorage::require_initialized(&tx)?;
        tx.require_auth(caller);
        ContractStorage::require_not_paused(&tx)?;
        ContractStorage::require_unlocked(&tx)?;
        ContractStorage::require_admin(&tx, caller)?;
        let n: u32 = milestone_ids.len();
        if n == 0 {
            return Err(EscrowError::E17);
        }
        let mut meta = ContractStorage::load_escrow_meta_with_rent(&mut tx, escrow_id)?;
        if meta.status != EscrowStatus::Active {
            return Err(EscrowError::E9);
        }
        ContractStorage::check_lock_time_expired(&mut tx, escrow_id, meta.lock_time)?;
        Self::check_terms(&tx, escrow_id, &meta)?;
        ContractStorage::check_slippage(&tx, &meta)?;
        let due: i128 = Self::sum_release(&tx, escrow_id, milestone_ids)?;
        if n > u32::MAX - meta.released_count {
            return Err(EscrowError::E20);
        }
        let ghost base = tx@;
        let ghost ids = milestone_ids@;
        let mut i: u32 = 0;
        while i < n
            invariant
                i <= n,
                n == ids.len(),
                ids == milestone_ids@,
                base.release_due(escrow_id, ids, n as nat) is Ok,
                tx@ == base.release_marked(escrow_id, meta.freelancer, ids, i as nat),
            decreases n - i,
        {
            proof {
                lemma_release_marked(base, escrow_id, meta.freelancer, ids, n as nat, i as nat);
                assert(tx@.has_milestone(escrow_id, ids[i as int]));
            }
            match milestone_ids.get(i) {
                None => {
                    assert(false);
                },
                Some(mid) => {
                    match ContractStorage::load_milestone(&tx, escrow_id, mid) {
                        Err(_) => {
                            assert(false);
                        },
                        Ok(m) => {
                            let mut m = m;
                            m.status = MS_RELEASED;
                            ContractStorage::save_milestone(&mut tx, escrow_id, &m);
                            tx.publish(
                                Event::FundsReleased {
                                    escrow_id,
                                    to: meta.freelancer,
                                    amount: m.amount,
                                },
                            );
                        },
                    }
                },
            }
            i = i + 1;
        }
        proof {
            lemma_release_marked(base, escrow_id, meta.freelancer, ids, n as nat, n as nat);
            assert(listed(env@.book.by_status, EscrowStatus::Completed).len() + 1 <= u32::MAX);
        }
        meta.released_count = meta.released_count + n;
        match meta.remaining_balance.checked_sub(due) {
            None => {
                return Err(EscrowError::E20);
            },
            Some(b) => {
                meta.remaining_balance = b;
            },
        }
        let done = meta.released_count == meta.milestone_count && meta.milestone_count > 0
            && !ContractStorage::has_payments_left(&tx, escrow_id);
        Self::settle_last_fee(&mut tx, escrow_id, meta.token, done)?;
        tx.pay(meta.token, meta.freelancer, due);
        if done {
            meta.status = EscrowStatus::Completed;
            Self::finish(&mut tx, escrow_id, Some(caller));
        }
        ContractStorage::save_escrow_meta(&mut tx, &meta);
        *env = tx;
        Ok(due)
    }

    /// Finds out whether the terms of an escrow allow a release.
    pub(crate) fn check_terms(env: &Ledger, escrow_id: u64, meta: &EscrowMeta) -> (r: Result<
        (),
        EscrowError,
    >)
        ensures
            r == env@.terms_check(escrow_id, meta@),
    {
        if meta.terms_hash.is_some() {
            match env.book.terms.get(escrow_id) {
                None => {
                    return Err(EscrowError::ClientHasNotAcceptedTerms);
                },
                Some(t) => {
                    if !t.accepted {
                        return Err(EscrowError::ClientHasNotAcceptedTerms);
                    }
                },
            }
        }
        Ok(())
    }

    /// Pays an approved milestone.
    pub(crate) fn pay_release(
        env: &mut Ledger,
        caller: Address,
        escrow_id: u64,
        milestone_id: u32,
        meta: EscrowMeta,
        milestone: Milestone,
    ) -> (r: Result<(), EscrowError>)
        requires
            old(env)@.rent_ok(escrow_id),
            old(env)@.slippage_fits(meta@),
            listed(old(env)@.book.by_status, EscrowStatus::Completed).len() < u32::MAX,
            meta.released_count < u32::MAX,
        ensures
            attempts(
                r,
                final(env)@,
                old(env)@.release_paid(caller, escrow_id, milestone_id, meta@, milestone@),
            ),
    {
        let mut meta = meta;
        let mut milestone = milestone;
        let amount: i128 = milestone.amount;
        let done = meta.released_count + 1 == meta.milestone_count
            && !ContractStorage::has_payments_left(env, escrow_id);
        Self::settle_last_fee(env, escrow_id, meta.token, done)?;
        ContractStorage::check_slippage(env, &meta)?;
        env.pay(meta.token, meta.freelancer, amount);
        milestone.status = MS_RELEASED;
        ContractStorage::save_milestone(env, escrow_id, &milestone);
        proof {
            lemma_dependents_told(env@, escrow_id, milestone_id);
        }
        Self::emit_dependents_unlocked(env, escrow_id, milestone_id);
        match meta.remaining_balance.checked_sub(amount) {
            None => {
                return Err(EscrowError::E20);
            },
            Some(b) => {
                meta.remaining_balance = b;
            },
        }
        meta.released_count = meta.released_count + 1;
        if done {
            meta.status = EscrowStatus::Completed;
            Self::finish(env, escrow_id, Some(caller));
        }
        ContractStorage::save_escrow_meta(env, &meta);
        env.publish(Event::FundsReleased { escrow_id, to: meta.freelancer, amount });
        Ok(())
    }

    /// The admin releases an approved milestone.
    #[verifier::rlimit(40)]
    pub fn release_funds(
        env: &mut Ledger,
        caller: Address,
        escrow_id: u64,
        milestone_id: u32,
    ) -> (r: Result<(), EscrowError>)
        requires
            old(env)@.rent_ok(escrow_id),
            old(env)@.slippage_ok(escrow_id),
            old(env)@.room(1),
            old(env)@.has_meta(escrow_id) ==> old(env)@.meta(escrow_id).released_count < u32::MAX,
        ensures
            answers(
                r,
                old(env)@,
                final(env)@,
                old(env)@.release(caller, escrow_id, milestone_id),
            ),
    {
        let mut tx = env.dup();
        ContractStorage::require_initialized(&tx)?;
        tx.require_auth(caller);
        ContractStorage::require_not_paused(&tx)?;
        ContractStorage::require_not_frozen(&tx, escrow_id)?;
        ContractStorage::require_unlocked(&tx)?;
        let milestone = ContractStorage::load_milestone(&tx, escrow_id, milestone_id)?;
        if milestone.status != MS_APPROVED {
            return Err(EscrowError::E14);
        }
        Self::require_dependency_satisfied(&tx, escrow_id, &milestone)?;
        let ghost asked = tx@;
        let meta = ContractStorage::load_escrow_meta_with_rent(&mut tx, escrow_id)?;
        proof {
            lemma_access_again(asked, escrow_id);
            assert(listed(env@.book.by_status, EscrowStatus::Completed).len() + 1 <= u32::MAX);
        }
        ContractStorage::require_admin(&tx, caller)?;
        if meta.status != EscrowStatus::Active {
            return Err(EscrowError::E9);
        }
        let _over = ContractStorage::check_timelock_expired(&mut tx, escrow_id, meta.timelock);
        ContractStorage::check_lock_time_expired(&mut tx, escrow_id, meta.lock_time)?;
        Self::check_terms(&tx, escrow_id, &meta)?;
        Self::pay_release(&mut tx, caller, escrow_id, milestone_id, meta, milestone)?;
        *env = tx;
        Ok(())
    }
}

} // verus!
