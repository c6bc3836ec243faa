//! Disputes: raising them, deciding them, and what they do to reputations.
use vstd::prelude::*;

use crate::constants::{DISPUTE_COOLDOWN_LEDGERS, HIGH_VALUE_THRESHOLD, MAX_STRING_LEN};
use crate::contract::EscrowContract;
use crate::errors::EscrowError;
use crate::events::{Effect, EffectView, Event};
use crate::index::listed;
use crate::ledger::{answers, BookView, Ledger, LedgerView, Outcome};
use crate::milestones::one_less;
use crate::release::toward_zero;
use crate::storage::ContractStorage;
use crate::types::{
    Address, DisputeEvidence, DisputeEvidences, EscrowMeta, EscrowStatus, EvidenceView, Hash32,
    MetaView, MilestoneView, OracleResolutionPayload, ReputationRecord, Text, MS_DISPUTED,
    MS_PENDING, MS_SUBMITTED,
};

verus! {

/// A sum that stops at the largest number.
pub open spec fn capped_add(a: u64, b: int) -> u64 {
    if a + b > u64::MAX {
        u64::MAX
    } else {
        (a + b) as u64
    }
}

/// A difference that stops at zero.
pub open spec fn floored_sub(a: u64, b: int) -> u64 {
    if a < b {
        0
    } else {
        (a - b) as u64
    }
}

/// A sum of amounts that stops at the ends of their range.
pub open spec fn clamped_add(a: i128, b: i128) -> i128 {
    if a + b > i128::MAX {
        i128::MAX
    } else if a + b < i128::MIN {
        i128::MIN
    } else {
        (a + b) as i128
    }
}

/// The part of a score that the volume of a completed escrow adds: one for each
/// thousand, at most ten, and none for a volume below zero.
pub open spec fn volume_bonus(volume: i128) -> int {
    if volume < 0 {
        0
    } else if volume >= 10_000 {
        10
    } else {
        volume as int / 1_000
    }
}

/// The thousands of a volume, as a 64-bit number that wraps round below zero,
/// leave room for ten more.
pub open spec fn volume_fits(volume: i128) -> bool {
    volume < 0 ==> toward_zero(volume as int, 1_000) % 0x1_0000_0000_0000_0000int + 10 <= u64::MAX
}

/// A record after an escrow was completed, disputed, or both: a completed one
/// adds ten and the bonus for its volume, a disputed one takes five.
pub open spec fn rated(
    r: ReputationRecord,
    completed: bool,
    disputed: bool,
    volume: i128,
    now: u64,
) -> ReputationRecord {
    let plus = if completed {
        capped_add(r.total_score, 10 + volume_bonus(volume))
    } else {
        r.total_score
    };
    ReputationRecord {
        total_score: if disputed {
            floored_sub(plus, 5)
        } else {
            plus
        },
        completed_escrows: if completed {
            (r.completed_escrows + 1) as u32
        } else {
            r.completed_escrows
        },
        disputed_escrows: if disputed {
            (r.disputed_escrows + 1) as u32
        } else {
            r.disputed_escrows
        },
        total_volume: if completed {
            clamped_add(r.total_volume, volume)
        } else {
            r.total_volume
        },
        last_updated: now,
        ..r
    }
}

/// A proposal that asks governance to decide on the funds of a dispute.
#[derive(Clone, Copy, Debug, PartialEq, Eq, Structural)]
pub struct ProposalCall {
    pub governance: Address,
    pub recipient: Address,
    pub token: Address,
    pub amount: i128,
}

impl LedgerView {
    /// The state after a reputation was updated and observers told.
    pub open spec fn reputed(
        self,
        who: Address,
        completed: bool,
        disputed: bool,
        volume: i128,
    ) -> LedgerView {
        let r = rated(self.reputation(who), completed, disputed, volume, self.timestamp);
        self.saved_reputation(r).told(
            Event::ReputationUpdated { address: who, score: r.total_score },
        )
    }

    /// The counters of the parties of an escrow, if there is one, can count one
    /// dispute more, first the client's and then the freelancer's.
    pub open spec fn dispute_counters_ok(self, id: u64) -> bool {
        self.has_meta(id) ==> {
            let m = self.meta(id);
            let next = self.reputed(m.client, false, true, 0);
            &&& self.reputation(m.client).disputed_escrows < u32::MAX
            &&& next.reputation(m.freelancer).disputed_escrows < u32::MAX
        }
    }

    /// Raises a dispute, over a milestone if one is named.
    pub open spec fn raise(self, caller: Address, id: u64, milestone: Option<u32>) -> Outcome<()> {
        if self.config.paused {
            Err(EscrowError::E31)
        } else if self.is_frozen(id) {
            Err(EscrowError::E61)
        } else {
            match self.authed(caller).accessed(id) {
                Err(e) => Err(e),
                Ok((seen, m)) => if caller != m.client && caller != m.freelancer {
                    Err(EscrowError::E3)
                } else if m.status != EscrowStatus::Active {
                    Err(EscrowError::E9)
                } else {
                    let env = seen.stepped(
                        id,
                        EscrowStatus::Active,
                        EscrowStatus::Disputed,
                        Some(caller),
                    ).moved(id, EscrowStatus::Active, EscrowStatus::Disputed).saved_meta(
                        MetaView {
                            status: EscrowStatus::Disputed,
                            dispute_started_ledger: Some(self.sequence),
                            dispute_start_ledger: Some(self.timestamp),
                            ..m
                        },
                    ).told(Event::DisputeRaised { escrow_id: id, by: caller });
                    match milestone {
                        None => Ok((env, ())),
                        Some(mid) => if !env.has_milestone(id, mid) {
                            Err(EscrowError::E13)
                        } else {
                            Ok((env.milestone_disputed(caller, id, mid), ()))
                        },
                    }
                },
            }
        }
    }

    /// The state after a milestone that is not settled was drawn into a dispute.
    pub open spec fn milestone_disputed(self, caller: Address, id: u64, mid: u32) -> LedgerView {
        let ms = self.milestone(id, mid);
        if ms.status != MS_SUBMITTED && ms.status != MS_PENDING {
            self
        } else {
            let env = self.saved_milestone(
                id,
                MilestoneView {
                    status: MS_DISPUTED,
                    resolved_at: Some(self.timestamp),
                    ..ms
                },
            );
            let counted = if ms.status == MS_SUBMITTED {
                env.saved_meta(
                    MetaView {
                        submitted_count: one_less(env.meta(id).submitted_count),
                        ..env.meta(id)
                    },
                )
            } else {
                env
            };
            counted.told(Event::MilestoneDisputed { escrow_id: id, milestone_id: mid, by: caller })
        }
    }

    /// Pays the arbiter's part of the total amount, where there is one. `fee` is
    /// what the platform took, where the two together must not exceed the total.
    pub open spec fn arbiter_paid(self, m: MetaView, fee: Option<i128>) -> Outcome<()> {
        let product = m.total_amount * m.arbiter_fee_bps;
        let part = toward_zero(product, 10_000);
        if m.arbiter_fee_bps == 0 || m.arbiter is None {
            Ok((self, ()))
        } else if !(i128::MIN <= product <= i128::MAX) {
            Err(EscrowError::E20)
        } else if fee is Some && !(i128::MIN <= part + fee->Some_0 <= i128::MAX) {
            Err(EscrowError::E20)
        } else if fee is Some && part + fee->Some_0 > m.total_amount {
            Err(EscrowError::E89)
        } else if part > 0 {
            Ok((self.paid(m.token, m.arbiter->Some_0, part as i128), ()))
        } else {
            Ok((self, ()))
        }
    }

    /// The state after both parties got their parts.
    pub open spec fn parties_paid(
        self,
        m: MetaView,
        client_amount: i128,
        freelancer_amount: i128,
    ) -> LedgerView {
        let first = if client_amount > 0 {
            self.paid(m.token, m.client, client_amount)
        } else {
            self
        };
        if freelancer_amount > 0 {
            first.paid(m.token, m.freelancer, freelancer_amount)
        } else {
            first
        }
    }

    /// Distributes a disputed escrow: the platform fee and the arbiter's part
    /// first, then the parties' parts.
    pub open spec fn distributed(
        self,
        id: u64,
        m: MetaView,
        client_amount: i128,
        freelancer_amount: i128,
    ) -> Outcome<()> {
        match self.fee_settled(id, m.token) {
            Err(e) => Err(e),
            Ok((feed, fee)) => match feed.arbiter_paid(m, Some(fee)) {
                Err(e) => Err(e),
                Ok((env, _)) => Ok(
                    (env.parties_paid(m, client_amount, freelancer_amount), ()),
                ),
            },
        }
    }

    /// Ends a dispute that nobody decided in time: the parties share evenly.
    pub open spec fn claim_timeout(self, caller: Address, id: u64) -> Outcome<()> {
        if self.config.paused {
            Err(EscrowError::E31)
        } else if self.is_frozen(id) {
            Err(EscrowError::E61)
        } else if self.config.reentrancy_lock {
            Err(EscrowError::E22)
        } else {
            match self.authed(caller).accessed(id) {
                Err(e) => Err(e),
                Ok((env, m)) => {
                    let client_amount = toward_zero(m.remaining_balance as int, 2) as i128;
                    let freelancer_amount = (m.remaining_balance - client_amount) as i128;
                    if caller != m.client && caller != m.freelancer {
                        Err(EscrowError::E3)
                    } else if m.status != EscrowStatus::Disputed {
                        Err(EscrowError::E10)
                    } else if m.dispute_timeout_ledger is None || m.dispute_started_ledger is None {
                        Err(EscrowError::E23)
                    } else if m.dispute_started_ledger->Some_0 + m.dispute_timeout_ledger->Some_0
                        > u32::MAX {
                        Err(EscrowError::E20)
                    } else if self.sequence < m.dispute_started_ledger->Some_0
                        + m.dispute_timeout_ledger->Some_0 {
                        Err(EscrowError::E23)
                    } else {
                        match env.distributed(id, m, client_amount, freelancer_amount) {
                            Err(e) => Err(e),
                            Ok((paid, _)) => Ok(
                                (
                                    paid.moved(
                                        id,
                                        EscrowStatus::Disputed,
                                        EscrowStatus::Completed,
                                    ).saved_meta(
                                        MetaView {
                                            remaining_balance: 0,
                                            status: EscrowStatus::Completed,
                                            dispute_started_ledger: None,
                                            dispute_start_ledger: None,
                                            ..m
                                        },
                                    ).told(
                                        Event::DisputeTimeoutClaimed {
                                            escrow_id: id,
                                            by: caller,
                                            client_amount,
                                            freelancer_amount,
                                        },
                                    ).told(Event::EscrowCompleted { escrow_id: id }),
                                    (),
                                ),
                            ),
                        }
                    }
                },
            }
        }
    }

    /// The escrow's arbiter, if it is on the allowlist, or the admin.
    pub open spec fn judge_check(self, m: MetaView, who: Address) -> Result<(), EscrowError> {
        if m.arbiter == Some(who) {
            if self.is_allowed(who) {
                Ok(())
            } else {
                Err(EscrowError::E90)
            }
        } else {
            self.admin_check(who)
        }
    }

    /// The state after both parties of a decided dispute were rated.
    pub open spec fn both_reputed(
        self,
        m: MetaView,
        client_amount: i128,
        freelancer_amount: i128,
    ) -> LedgerView {
        self.reputed(m.client, false, true, client_amount).reputed(
            m.freelancer,
            false,
            true,
            freelancer_amount,
        )
    }

    /// Decides a dispute: the parts have to add up to what is left, and the
    /// dispute has to be old enough.
    pub open spec fn resolve(
        self,
        caller: Address,
        id: u64,
        client_amount: i128,
        freelancer_amount: i128,
    ) -> Outcome<()> {
        if self.config.paused {
            Err(EscrowError::E31)
        } else if self.is_frozen(id) {
            Err(EscrowError::E61)
        } else if self.config.reentrancy_lock {
            Err(EscrowError::E22)
        } else {
            match self.authed(caller).accessed(id) {
                Err(e) => Err(e),
                Ok((env, m)) => if env.judge_check(m, caller) is Err {
                    env.judge_check(m, caller)->Err_0.refused()
                } else if m.status != EscrowStatus::Disputed {
                    Err(EscrowError::E10)
                } else if client_amount + freelancer_amount != m.remaining_balance {
                    Err(EscrowError::E20)
                } else if m.dispute_started_ledger is None {
                    Err(EscrowError::E10)
                } else if self.sequence < m.dispute_started_ledger->Some_0
                    + DISPUTE_COOLDOWN_LEDGERS {
                    Err(EscrowError::E64)
                } else {
                    match env.distributed(id, m, client_amount, freelancer_amount) {
                        Err(e) => Err(e),
                        Ok((paid, _)) => Ok(
                            (
                                paid.stepped(
                                    id,
                                    EscrowStatus::Disputed,
                                    EscrowStatus::Completed,
                                    Some(caller),
                                ).moved(
                                    id,
                                    EscrowStatus::Disputed,
                                    EscrowStatus::Completed,
                                ).saved_meta(
                                    MetaView {
                                        remaining_balance: 0,
                                        status: EscrowStatus::Completed,
                                        dispute_started_ledger: None,
                                        dispute_start_ledger: None,
                                        ..m
                                    },
                                ).told(
                                    Event::DisputeResolved {
                                        escrow_id: id,
                                        client_amount,
                                        freelancer_amount,
                                    },
                                ).both_reputed(m, client_amount, freelancer_amount),
                                (),
                            ),
                        ),
                    }
                },
            }
        }
    }

    /// The parts of a balance that a signed decision gives the parties.
    pub open spec fn oracle_split(m: MetaView, p: OracleResolutionPayload) -> (i128, i128) {
        let client_amount = toward_zero(m.remaining_balance * p.client_bps, 10_000);
        (client_amount as i128, (m.remaining_balance - client_amount) as i128)
    }

    /// Why a signed decision is not accepted, if so.
    pub open spec fn oracle_check(
        self,
        m: MetaView,
        p: OracleResolutionPayload,
        grace: u64,
    ) -> Result<
        (),
        EscrowError,
    > {
        if m.status != EscrowStatus::Disputed {
            Err(EscrowError::E10)
        } else if m.dispute_start_ledger is None {
            Err(EscrowError::E60)
        } else if self.timestamp < capped_add(m.dispute_start_ledger->Some_0, grace as int) {
            Err(EscrowError::E56)
        } else if self.timestamp > p.expires_at {
            Err(EscrowError::E58)
        } else if p.client_bps + p.freelancer_bps != 10_000 {
            Err(EscrowError::E59)
        } else if self.config.trusted_oracle_key is None {
            Err(EscrowError::E54)
        } else if p.oracle_pubkey != self.config.trusted_oracle_key->Some_0 {
            Err(EscrowError::E57)
        } else {
            Ok(())
        }
    }

    /// Decides a dispute that the arbiter left open by a signed decision. The
    /// signature is for the host to verify.
    pub open spec fn oracle_resolve(
        self,
        id: u64,
        p: OracleResolutionPayload,
        grace: u64,
    ) -> Outcome<()> {
        if self.config.paused {
            Err(EscrowError::E31)
        } else if self.config.reentrancy_lock {
            Err(EscrowError::E22)
        } else {
            match self.accessed(id) {
                Err(e) => Err(e),
                Ok((env, m)) => if env.oracle_check(m, p, grace) is Err {
                    env.oracle_check(m, p, grace)->Err_0.refused()
                } else {
                    let (client_amount, freelancer_amount) = LedgerView::oracle_split(m, p);
                    match env.logged(EffectView::VerifySignature(p)).arbiter_paid(m, None) {
                        Err(e) => Err(e),
                        Ok((paid, _)) => Ok(
                            (
                                paid.parties_paid(m, client_amount, freelancer_amount).stepped(
                                    id,
                                    EscrowStatus::Disputed,
                                    EscrowStatus::Completed,
                                    None,
                                ).saved_meta(
                                    MetaView {
                                        remaining_balance: 0,
                                        status: EscrowStatus::Completed,
                                        dispute_started_ledger: None,
                                        dispute_start_ledger: None,
                                        ..m
                                    },
                                ).moved(
                                    id,
                                    EscrowStatus::Disputed,
                                    EscrowStatus::Completed,
                                ).told(
                                    Event::DisputeResolved {
                                        escrow_id: id,
                                        client_amount,
                                        freelancer_amount,
                                    },
                                ).both_reputed(m, client_amount, freelancer_amount),
                                (),
                            ),
                        ),
                    }
                },
            }
        }
    }

    /// The proposal that takes a dispute to governance, or why there is none.
    pub open spec fn escalation(self, caller: Address, id: u64) -> Outcome<ProposalCall> {
        if self.config.paused {
            Err(EscrowError::E31)
        } else {
            match self.authed(caller).accessed(id) {
                Err(e) => Err(e),
                Ok((env, m)) => if caller != m.client && caller != m.freelancer {
                    Err(EscrowError::E3)
                } else if m.status != EscrowStatus::Disputed {
                    Err(EscrowError::E10)
                } else if m.total_amount < HIGH_VALUE_THRESHOLD {
                    Err(EscrowError::E19)
                } else {
                    match self.config.governance_contract {
                        None => Err(EscrowError::E2),
                        Some(governance) => Ok(
                            (
                                env,
                                ProposalCall {
                                    governance,
                                    recipient: self.contract,
                                    token: m.token,
                                    amount: m.remaining_balance,
                                },
                            ),
                        ),
                    }
                },
            }
        }
    }

    /// Takes a dispute to governance, which answered with a proposal's id.
    pub open spec fn escalate(self, caller: Address, id: u64, proposal_id: u64) -> Outcome<u64> {
        match self.escalation(caller, id) {
            Err(e) => Err(e),
            Ok((env, _)) => Ok(
                (
                    env.told(
                        Event::DisputeEscalated {
                            escrow_id: id,
                            by: caller,
                            proposal_id,
                            amount: self.meta(id).total_amount,
                        },
                    ),
                    proposal_id,
                ),
            ),
        }
    }

    /// The evidence on an escrow.
    pub open spec fn evidence_on(self, id: u64) -> Seq<EvidenceView> {
        if self.book.evidence.contains_key(id) {
            self.book.evidence[id]
        } else {
            Seq::empty()
        }
    }

    /// Puts evidence forward. The answer is how much there is then.
    pub open spec fn add_evidence(
        self,
        caller: Address,
        id: u64,
        hash: Hash32,
        description: Seq<u8>,
    ) -> Outcome<u32> {
        if self.config.paused {
            Err(EscrowError::E31)
        } else {
            match self.authed(caller).accessed(id) {
                Err(e) => Err(e),
                Ok((env, m)) => if m.status != EscrowStatus::Disputed {
                    Err(EscrowError::E82)
                } else if caller != m.client && caller != m.freelancer {
                    Err(EscrowError::E83)
                } else if hash.zero() || description.len() == 0 {
                    Err(EscrowError::E80)
                } else if description.len() > MAX_STRING_LEN {
                    Err(EscrowError::E81)
                } else {
                    let all = self.evidence_on(id).push(
                        EvidenceView {
                            escrow_id: id,
                            submitted_by: caller,
                            evidence_hash: hash,
                            submitted_at: self.timestamp,
                            description,
                        },
                    );
                    Ok(
                        (
                            env.with_book(
                                BookView {
                                    evidence: env.book.evidence.insert(id, all),
                                    ..env.book
                                },
                            ),
                            all.len() as u32,
                        ),
                    )
                },
            }
        }
    }
}

/// The bytes of a number, lowest first.
pub open spec fn le_bytes(x: int, n: nat) -> Seq<u8>
    decreases n,
{
    if n == 0 {
        Seq::empty()
    } else {
        seq![(x % 256) as u8] + le_bytes(x / 256, (n - 1) as nat)
    }
}

/// The message that an oracle signs: the escrow's id, the parts of client and
/// freelancer, and the time of expiry, each with its lowest byte first.
pub open spec fn oracle_message(p: OracleResolutionPayload) -> Seq<u8> {
    le_bytes(p.escrow_id as int, 8) + le_bytes(p.client_bps as int, 4) + le_bytes(
        p.freelancer_bps as int,
        4,
    ) + le_bytes(p.expires_at as int, 8)
}

/// Puts the bytes of a number behind a list of bytes, lowest first.
fn push_le_bytes(out: &mut Vec<u8>, x: u64, n: usize)
    ensures
        final(out)@ == old(out)@ + le_bytes(x as int, n as nat),
    decreases n,
{
    if n == 0 {
        assert(out@ =~= old(out)@ + le_bytes(x as int, 0));
        return ;
    }
    out.push((x % 256) as u8);
    push_le_bytes(out, x / 256, n - 1);
    assert(out@ =~= old(out)@ + le_bytes(x as int, n as nat));
}

impl EscrowContract {
    /// The message that an oracle signs.
    pub fn oracle_message_bytes(payload: &OracleResolutionPayload) -> (r: Vec<u8>)
        ensures
            r@ == oracle_message(*payload),
    {
        let mut out: Vec<u8> = Vec::new();
        push_le_bytes(&mut out, payload.escrow_id, 8);
        push_le_bytes(&mut out, payload.client_bps as u64, 4);
        push_le_bytes(&mut out, payload.freelancer_bps as u64, 4);
        push_le_bytes(&mut out, payload.expires_at, 8);
        assert(out@ =~= oracle_message(*payload));
        out
    }

    /// Updates a reputation.
    pub fn _update_reputation_internal(
        env: &mut Ledger,
        address: Address,
        completed: bool,
        disputed: bool,
        volume: i128,
    )
        requires
            completed ==> old(env)@.reputation(address).completed_escrows < u32::MAX,
            disputed ==> old(env)@.reputation(address).disputed_escrows < u32::MAX,
        ensures
            final(env)@ == old(env)@.reputed(address, completed, disputed, volume),
    {
        let mut record = ContractStorage::load_reputation(env, address);
        if completed {
            let bonus: u64 = if volume < 0 {
                0
            } else if volume >= 10_000 {
                10
            } else {
                (volume / 1_000) as u64
            };
            record.total_score = match record.total_score.checked_add(10 + bonus) {
                Some(s) => s,
                None => u64::MAX,
            };
            record.completed_escrows = record.completed_escrows + 1;
            record.total_volume = match record.total_volume.checked_add(volume) {
                Some(v) => v,
                None => if volume > 0 {
                    i128::MAX
                } else {
                    i128::MIN
                },
            };
        }
        if disputed {
            record.total_score = if record.total_score < 5 {
                0
            } else {
                record.total_score - 5
            };
            record.disputed_escrows = record.disputed_escrows + 1;
        }
        record.last_updated = env.timestamp;
        ContractStorage::save_reputation(env, &record);
        env.publish(Event::ReputationUpdated { address, score: record.total_score });
    }

    /// Updates the reputation of an address.
    pub fn update_reputation(
        env: &mut Ledger,
        address: Address,
        completed: bool,
        disputed: bool,
        volume: i128,
    ) -> (r: Result<(), EscrowError>)
        requires
            completed ==> volume_fits(volume),
            completed ==> old(env)@.reputation(address).completed_escrows < u32::MAX,
            disputed ==> old(env)@.reputation(address).disputed_escrows < u32::MAX,
        ensures
            answers(
                r,
                old(env)@,
                final(env)@,
                if old(env)@.config.paused {
                    Err(EscrowError::E31)
                } else {
                    Ok((old(env)@.reputed(address, completed, disputed, volume), ()))
                },
            ),
    {
        ContractStorage::require_not_paused(env)?;
        Self::_update_reputation_internal(env, address, completed, disputed, volume);
        Ok(())
    }

    /// A party raises a dispute.
    #[verifier::rlimit(40)]
    pub fn raise_dispute(
        env: &mut Ledger,
        caller: Address,
        escrow_id: u64,
        milestone_id: Option<u32>,
    ) -> (r: Result<(), EscrowError>)
        requires
            old(env)@.rent_ok(escrow_id),
            old(env)@.room(1),
        ensures
            answers(
                r,
                old(env)@,
                final(env)@,
                old(env)@.raise(caller, escrow_id, milestone_id),
            ),
    {
        let mut tx = env.dup();
        tx.require_auth(caller);
        ContractStorage::require_not_paused(&tx)?;
        ContractStorage::require_not_frozen(&tx, escrow_id)?;
        let mut meta = ContractStorage::load_escrow_meta_with_rent(&mut tx, escrow_id)?;
        if caller != meta.client && caller != meta.freelancer {
            return Err(EscrowError::E3);
        }
        if meta.status != EscrowStatus::Active {
            return Err(EscrowError::E9);
        }
        meta.status = EscrowStatus::Disputed;
        ContractStorage::record_state_change(
            &mut tx,
            escrow_id,
            EscrowStatus::Active,
            EscrowStatus::Disputed,
            Some(caller),
        );
        meta.dispute_started_ledger = Some(tx.sequence);
        meta.dispute_start_ledger = Some(tx.timestamp);
        assert(listed(env@.book.by_status, EscrowStatus::Disputed).len() + 1 <= u32::MAX);
        ContractStorage::move_status(
            &mut tx,
            escrow_id,
            EscrowStatus::Active,
            EscrowStatus::Disputed,
        );
        ContractStorage::save_escrow_meta(&mut tx, &meta);
        tx.publish(Event::DisputeRaised { escrow_id, by: caller });
        if let Some(mid) = milestone_id {
            let mut milestone = ContractStorage::load_milestone(&tx, escrow_id, mid)?;
            let was_submitted = milestone.status == MS_SUBMITTED;
            if was_submitted || milestone.status == MS_PENDING {
                milestone.status = MS_DISPUTED;
                milestone.resolved_at = Some(tx.timestamp);
                ContractStorage::save_milestone(&mut tx, escrow_id, &milestone);
                if was_submitted {
                    let mut meta2 = ContractStorage::load_escrow_meta(&tx, escrow_id)?;
                    if meta2.submitted_count > 0 {
                        meta2.submitted_count = meta2.submitted_count - 1;
                    }
                    ContractStorage::save_escrow_meta(&mut tx, &meta2);
                }
                tx.publish(Event::MilestoneDisputed { escrow_id, milestone_id: mid, by: caller });
            }
        }
        *env = tx;
        Ok(())
    }

    /// Pays the arbiter's part, where there is one.
    fn pay_arbiter(
        env: &mut Ledger,
        meta: &EscrowMeta,
        fee: Option<i128>,
    ) -> (r: Result<(), EscrowError>)
        ensures
            answers(r, old(env)@, final(env)@, old(env)@.arbiter_paid(meta@, fee)),
    {
        if meta.arbiter_fee_bps > 0 {
            if let Some(arbiter) = meta.arbiter {
                let product: i128 = match meta.total_amount.checked_mul(
                    meta.arbiter_fee_bps as i128,
                ) {
                    None => {
                        return Err(EscrowError::E20);
                    },
                    Some(p) => p,
                };
                let part: i128 = product / 10_000;
                if let Some(f) = fee {
                    match part.checked_add(f) {
                        None => {
                            return Err(EscrowError::E20);
                        },
                        Some(sum) => {
                            if sum > meta.total_amount {
                                return Err(EscrowError::E89);
                            }
                        },
                    }
                }
                if part > 0 {
                    env.pay(meta.token, arbiter, part);
                }
            }
        }
        Ok(())
    }

    /// Pays both parties their parts.
    fn pay_parties(
        env: &mut Ledger,
        meta: &EscrowMeta,
        client_amount: i128,
        freelancer_amount: i128,
    )
        ensures
            final(env)@ == old(env)@.parties_paid(meta@, client_amount, freelancer_amount),
    {
        if client_amount > 0 {
            env.pay(meta.token, meta.client, client_amount);
        }
        if freelancer_amount > 0 {
            env.pay(meta.token, meta.freelancer, freelancer_amount);
        }
    }

    /// Distributes a disputed escrow.
    fn distribute(
        env: &mut Ledger,
        escrow_id: u64,
        meta: &EscrowMeta,
        client_amount: i128,
        freelancer_amount: i128,
    ) -> (r: Result<(), EscrowError>)
        ensures
            crate::ledger::attempts(
                r,
                final(env)@,
                old(env)@.distributed(escrow_id, meta@, client_amount, freelancer_amount),
            ),
    {
        let fee: i128 = Self::collect_platform_fee(env, escrow_id, meta.token)?;
        Self::pay_arbiter(env, meta, Some(fee))?;
        Self::pay_parties(env, meta, client_amount, freelancer_amount);
        Ok(())
    }

    /// A party ends a dispute that nobody decided in time.
    #[verifier::rlimit(40)]
    pub fn claim_dispute_timeout(
        env: &mut Ledger,
        caller: Address,
        escrow_id: u64,
    ) -> (r: Result<(), EscrowError>)
        requires
            old(env)@.rent_ok(escrow_id),
            old(env)@.room(1),
        ensures
            answers(r, old(env)@, final(env)@, old(env)@.claim_timeout(caller, escrow_id)),
    {
        let mut tx = env.dup();
        tx.require_auth(caller);
        ContractStorage::require_not_paused(&tx)?;
        ContractStorage::require_not_frozen(&tx, escrow_id)?;
        ContractStorage::require_unlocked(&tx)?;
        let mut meta = ContractStorage::load_escrow_meta_with_rent(&mut tx, escrow_id)?;
        if caller != meta.client && caller != meta.freelancer {
            return Err(EscrowError::E3);
        }
        if meta.status != EscrowStatus::Disputed {
            return Err(EscrowError::E10);
        }
        let timeout: u32 = match meta.dispute_timeout_ledger {
            None => {
                return Err(EscrowError::E23);
            },
            Some(t) => t,
        };
        let started: u32 = match meta.dispute_started_ledger {
            None => {
                return Err(EscrowError::E23);
            },
            Some(t) => t,
        };
        let deadline: u32 = match started.checked_add(timeout) {
            None => {
                return Err(EscrowError::E20);
            },
            Some(d) => d,
        };
        if tx.sequence < deadline {
            return Err(EscrowError::E23);
        }
        let client_amount: i128 = meta.remaining_balance / 2;
        let freelancer_amount: i128 = meta.remaining_balance - client_amount;
        Self::distribute(&mut tx, escrow_id, &meta, client_amount, freelancer_amount)?;
        meta.remaining_balance = 0;
        meta.status = EscrowStatus::Completed;
        meta.dispute_started_ledger = None;
        meta.dispute_start_ledger = None;
        assert(listed(env@.book.by_status, EscrowStatus::Completed).len() + 1 <= u32::MAX);
        ContractStorage::move_status(
            &mut tx,
            escrow_id,
            EscrowStatus::Disputed,
            EscrowStatus::Completed,
        );
        ContractStorage::save_escrow_meta(&mut tx, &meta);
        tx.publish(
            Event::DisputeTimeoutClaimed {
                escrow_id,
                by: caller,
                client_amount,
                freelancer_amount,
            },
        );
        tx.publish(Event::EscrowCompleted { escrow_id });
        *env = tx;
        Ok(())
    }

    /// Finds out whether somebody may decide over an escrow.
    pub(crate) fn check_judge(
        env: &Ledger,
        meta: &EscrowMeta,
        caller: Address,
    ) -> (r: Result<(), EscrowError>)
        ensures
            r == env@.judge_check(meta@, caller),
    {
        let is_arbiter = match meta.arbiter {
            None => false,
            Some(a) => a == caller,
        };
        if !is_arbiter {
            return ContractStorage::require_admin(env, caller);
        }
        if !env.book.allowlist.has(caller) {
            return Err(EscrowError::E90);
        }
        Ok(())
    }

    /// The arbiter or the admin decides a dispute.
    #[verifier::rlimit(40)]
    pub fn resolve_dispute(
        env: &mut Ledger,
        caller: Address,
        escrow_id: u64,
        client_amount: i128,
        freelancer_amount: i128,
    ) -> (r: Result<(), EscrowError>)
        requires
            old(env)@.rent_ok(escrow_id),
            old(env)@.room(1),
            old(env)@.dispute_counters_ok(escrow_id),
            !old(env)@.config.paused && old(env)@.has_meta(escrow_id) && old(env)@.meta(
                escrow_id,
            ).status == EscrowStatus::Disputed ==> i128::MIN <= client_amount + freelancer_amount
                <= i128::MAX,
        ensures
            answers(
                r,
                old(env)@,
                final(env)@,
                old(env)@.resolve(caller, escrow_id, client_amount, freelancer_amount),
            ),
    {
        let mut tx = env.dup();
        tx.require_auth(caller);
        ContractStorage::require_not_paused(&tx)?;
        ContractStorage::require_not_frozen(&tx, escrow_id)?;
        ContractStorage::require_unlocked(&tx)?;
        let mut meta = ContractStorage::load_escrow_meta_with_rent(&mut tx, escrow_id)?;
        Self::check_judge(&tx, &meta, caller)?;
        if meta.status != EscrowStatus::Disputed {
            return Err(EscrowError::E10);
        }
        if client_amount + freelancer_amount != meta.remaining_balance {
            return Err(EscrowError::E20);
        }
        match meta.dispute_started_ledger {
            None => {
                return Err(EscrowError::E10);
            },
            Some(started) => {
                if (tx.sequence as u64) < started as u64 + DISPUTE_COOLDOWN_LEDGERS as u64 {
                    return Err(EscrowError::E64);
                }
            },
        }
        Self::distribute(&mut tx, escrow_id, &meta, client_amount, freelancer_amount)?;
        meta.remaining_balance = 0;
        meta.status = EscrowStatus::Completed;
        ContractStorage::record_state_change(
            &mut tx,
            escrow_id,
            EscrowStatus::Disputed,
            EscrowStatus::Completed,
            Some(caller),
        );
        meta.dispute_started_ledger = None;
        meta.dispute_start_ledger = None;
        assert(listed(env@.book.by_status, EscrowStatus::Completed).len() + 1 <= u32::MAX);
        ContractStorage::move_status(
            &mut tx,
            escrow_id,
            EscrowStatus::Disputed,
            EscrowStatus::Completed,
        );
        ContractStorage::save_escrow_meta(&mut tx, &meta);
        tx.publish(Event::DisputeResolved { escrow_id, client_amount, freelancer_amount });
        Self::_update_reputation_internal(&mut tx, meta.client, false, true, client_amount);
        assert(tx@.book.reputations == env@.reputed(meta.client, false, true, 0).book.reputations);
        Self::_update_reputation_internal(&mut tx, meta.freelancer, false, true, freelancer_amount);
        *env = tx;
        Ok(())
    }

    /// Finds out whether a signed decision is acceptable.
    fn check_oracle(
        env: &Ledger,
        meta: &EscrowMeta,
        payload: &OracleResolutionPayload,
        grace_period_seconds: u64,
    ) -> (r: Result<(), EscrowError>)
        ensures
            r == env@.oracle_check(meta@, *payload, grace_period_seconds),
    {
        if meta.status != EscrowStatus::Disputed {
            return Err(EscrowError::E10);
        }
        let start: u64 = match meta.dispute_start_ledger {
            None => {
                return Err(EscrowError::E60);
            },
            Some(s) => s,
        };
        let now: u64 = env.timestamp;
        let end: u64 = match start.checked_add(grace_period_seconds) {
            None => u64::MAX,
            Some(e) => e,
        };
        if now < end {
            return Err(EscrowError::E56);
        }
        if now > payload.expires_at {
            return Err(EscrowError::E58);
        }
        if payload.client_bps as u64 + payload.freelancer_bps as u64 != 10_000 {
            return Err(EscrowError::E59);
        }
        match env.config.trusted_oracle_key {
            None => Err(EscrowError::E54),
            Some(key) => {
                if payload.oracle_pubkey != key {
                    return Err(EscrowError::E57);
                }
                Ok(())
            },
        }
    }

    /// Decides a dispute by a signed decision.
    #[verifier::rlimit(40)]
    pub fn oracle_resolve_dispute(
        env: &mut Ledger,
        escrow_id: u64,
        payload: OracleResolutionPayload,
        grace_period_seconds: u64,
    ) -> (r: Result<(), EscrowError>)
        requires
            old(env)@.rent_ok(escrow_id),
            old(env)@.room(1),
            old(env)@.dispute_counters_ok(escrow_id),
            old(env)@.has_meta(escrow_id) && payload.client_bps <= 10_000 ==> i128::MIN
                <= old(env)@.meta(escrow_id).remaining_balance * payload.client_bps <= i128::MAX,
        ensures
            answers(
                r,
                old(env)@,
                final(env)@,
                old(env)@.oracle_resolve(escrow_id, payload, grace_period_seconds),
            ),
    {
        let mut tx = env.dup();
        ContractStorage::require_not_paused(&tx)?;
        ContractStorage::require_unlocked(&tx)?;
        let mut meta = ContractStorage::load_escrow_meta_with_rent(&mut tx, escrow_id)?;
        Self::check_oracle(&tx, &meta, &payload, grace_period_seconds)?;
        tx.ask(Effect::VerifySignature(payload));
        let total: i128 = meta.remaining_balance;
        let product: i128 = total * payload.client_bps as i128;
        let client_amount: i128 = product / 10_000;
        proof {
            lemma_part_fits(total as int, payload.client_bps as int);
        }
        let freelancer_amount: i128 = total - client_amount;
        Self::pay_arbiter(&mut tx, &meta, None)?;
        Self::pay_parties(&mut tx, &meta, client_amount, freelancer_amount);
        meta.remaining_balance = 0;
        meta.status = EscrowStatus::Completed;
        meta.dispute_started_ledger = None;
        meta.dispute_start_ledger = None;
        ContractStorage::record_state_change(
            &mut tx,
            escrow_id,
            EscrowStatus::Disputed,
            EscrowStatus::Completed,
            None,
        );
        ContractStorage::save_escrow_meta(&mut tx, &meta);
        assert(listed(env@.book.by_status, EscrowStatus::Completed).len() + 1 <= u32::MAX);
        ContractStorage::move_status(
            &mut tx,
            escrow_id,
            EscrowStatus::Disputed,
            EscrowStatus::Completed,
        );
        tx.publish(Event::DisputeResolved { escrow_id, client_amount, freelancer_amount });
        Self::_update_reputation_internal(&mut tx, meta.client, false, true, client_amount);
        assert(tx@.book.reputations == env@.reputed(meta.client, false, true, 0).book.reputations);
        Self::_update_reputation_internal(&mut tx, meta.freelancer, false, true, freelancer_amount);
        *env = tx;
        Ok(())
    }

    /// The proposal that a party takes a dispute to governance with.
    pub fn governance_proposal(
        env: &Ledger,
        caller: Address,
        escrow_id: u64,
    ) -> (r: Result<ProposalCall, EscrowError>)
        requires
            env@.rent_ok(escrow_id),
        ensures
            match env@.escalation(caller, escrow_id) {
                Err(e) => r == Err::<ProposalCall, EscrowError>(e),
                Ok((_, call)) => r == Ok::<ProposalCall, EscrowError>(call),
            },
    {
        let mut tx = env.dup();
        Self::prepare_escalation(&mut tx, caller, escrow_id)
    }

    fn prepare_escalation(
        env: &mut Ledger,
        caller: Address,
        escrow_id: u64,
    ) -> (r: Result<ProposalCall, EscrowError>)
        requires
            old(env)@.rent_ok(escrow_id),
        ensures
            crate::ledger::attempts(r, final(env)@, old(env)@.escalation(caller, escrow_id)),
    {
        env.require_auth(caller);
        ContractStorage::require_not_paused(env)?;
        let meta = ContractStorage::load_escrow_meta_with_rent(env, escrow_id)?;
        if caller != meta.client && caller != meta.freelancer {
            return Err(EscrowError::E3);
        }
        if meta.status != EscrowStatus::Disputed {
            return Err(EscrowError::E10);
        }
        if meta.total_amount < HIGH_VALUE_THRESHOLD {
            return Err(EscrowError::E19);
        }
        match env.config.governance_contract {
            None => Err(EscrowError::E2),
            Some(governance) => Ok(
                ProposalCall {
                    governance,
                    recipient: env.contract,
                    token: meta.token,
                    amount: meta.remaining_balance,
                },
            ),
        }
    }

    /// A party takes a dispute to governance; `proposal_id` is what governance
    /// answered to `governance_proposal`.
    pub fn escalate_dispute_to_governance(
        env: &mut Ledger,
        caller: Address,
        escrow_id: u64,
        proposal_id: u64,
    ) -> (r: Result<u64, EscrowError>)
        requires
            old(env)@.rent_ok(escrow_id),
        ensures
            answers(
                r,
                old(env)@,
                final(env)@,
                old(env)@.escalate(caller, escrow_id, proposal_id),
            ),
    {
        let mut tx = env.dup();
        let _call = Self::prepare_escalation(&mut tx, caller, escrow_id)?;
        let meta = ContractStorage::load_escrow_meta(env, escrow_id)?;
        tx.publish(
            Event::DisputeEscalated {
                escrow_id,
                by: caller,
                proposal_id,
                amount: meta.total_amount,
            },
        );
        *env = tx;
        Ok(proposal_id)
    }

    /// A party puts evidence forward.
    #[verifier::rlimit(40)]
    pub fn add_evidence(
        env: &mut Ledger,
        caller: Address,
        escrow_id: u64,
        evidence_hash: Hash32,
        description: Text,
    ) -> (r: Result<u32, EscrowError>)
        requires
            old(env)@.rent_ok(escrow_id),
            old(env)@.evidence_on(escrow_id).len() < u32::MAX,
        ensures
            answers(
                r,
                old(env)@,
                final(env)@,
                old(env)@.add_evidence(caller, escrow_id, evidence_hash, description@),
            ),
    {
        let mut tx = env.dup();
        tx.require_auth(caller);
        ContractStorage::require_not_paused(&tx)?;
        let meta = ContractStorage::load_escrow_meta_with_rent(&mut tx, escrow_id)?;
        if meta.status != EscrowStatus::Disputed {
            return Err(EscrowError::E82);
        }
        if caller != meta.client && caller != meta.freelancer {
            return Err(EscrowError::E83);
        }
        if evidence_hash.is_zero() || description.len() == 0 {
            return Err(EscrowError::E80);
        }
        if description.len() > MAX_STRING_LEN as usize {
            return Err(EscrowError::E81);
        }
        let mut all = match tx.book.evidence.get(escrow_id) {
            Some(e) => e,
            None => DisputeEvidences::new(),
        };
        let submitted_at: u64 = tx.timestamp;
        all.push(
            DisputeEvidence {
                escrow_id,
                submitted_by: caller,
                evidence_hash,
                submitted_at,
                description,
            },
        );
        let n: u32 = all.items.len() as u32;
        tx.book.evidence.set(escrow_id, all);
        *env = tx;
        Ok(n)
    }

    /// The evidence on an escrow.
    pub fn get_evidence(env: &Ledger, escrow_id: u64) -> (r: Result<DisputeEvidences, EscrowError>)
        ensures
            env@.config.admin is None ==> r == Err::<DisputeEvidences, EscrowError>(
                EscrowError::E2,
            ),
            env@.config.admin is Some ==> r is Ok && r->Ok_0@ == env@.evidence_on(escrow_id),
    {
        ContractStorage::require_initialized(env)?;
        match env.book.evidence.get(escrow_id) {
            Some(e) => Ok(e),
            None => Ok(DisputeEvidences::new()),
        }
    }
}

/// A part of at most the whole lies between nothing and the whole.
pub proof fn lemma_part_fits(total: int, bps: int)
    requires
        0 <= bps <= 10_000,
    ensures
        total >= 0 ==> 0 <= toward_zero(total * bps, 10_000) <= total,
        total <= 0 ==> total <= toward_zero(total * bps, 10_000) <= 0,
{
    if total >= 0 {
        assert(0 <= total * bps <= total * 10_000) by (nonlinear_arith)
            requires
                total >= 0,
                0 <= bps <= 10_000,
        ;
    } else {
        let t = -total;
        assert(0 <= t * bps <= t * 10_000) by (nonlinear_arith)
            requires
                t >= 0,
                0 <= bps <= 10_000,
        ;
        assert(total * bps == -(t * bps)) by (nonlinear_arith)
            requires
                t == -total,
        ;
    }
}

} // verus!
