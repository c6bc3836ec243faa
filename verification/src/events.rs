//! What a request asks of the host beside the entries that it writes.
use vstd::prelude::*;

use crate::host::Ids;
use crate::store::Record;
use crate::types::{Address, Hash32, OracleResolutionPayload, Text};

verus! {

/// What observers are told. Where that takes a text or a list as well, it stands
/// beside the event.
#[derive(Clone, Copy, Debug, PartialEq, Eq, Structural)]
pub enum Event {
    AdminInitialized { admin: Address },
    AdminProposed { by: Address, new_admin: Address },
    AdminChanged { old_admin: Address, new_admin: Address },
    ContractPaused { by: Address },
    ContractUnpaused { by: Address },
    ContractVersionUpgraded { old_version: u32, new_version: u32 },
    EscrowFrozen { escrow_id: u64, sequence: u32, timestamp: u64 },
    EscrowUnfrozen { escrow_id: u64, sequence: u32, timestamp: u64 },
    TokenWhitelistAdded { by: Address, token: Address },
    TokenWhitelistRemoved { by: Address, token: Address },
    TokenWhitelistSet { by: Address, enabled: bool },
    MaxMilestonesSet { new_max: u32 },
    WrappedTokenRegistered { token: Address },
    BridgeConfirmationUpdated { token: Address, confirmations: u32, is_finalized: bool },
    RentCollected { escrow_id: u64, collected: i128, rent_balance: i128, expires_at: u64 },
    RentExpired { escrow_id: u64, refund: i128, remaining_balance: i128 },
    RentWithdrawn { escrow_id: u64, to: Address, amount: i128 },
    EscrowCreated { escrow_id: u64, client: Address, freelancer: Address, amount: i128 },
    NftGatedEscrowCreated { escrow_id: u64, nft_contract: Address, token_id: u64 },
    EscrowCompleted { escrow_id: u64 },
    EscrowCancelled { escrow_id: u64, refund: i128 },
    CancellationBreakdown {
        escrow_id: u64,
        freelancer_payout: i128,
        client_refund: i128,
        fee: i128,
    },
    EscrowSplit { escrow_id: u64, child1: u64, child2: u64 },
    PartialCancellation { escrow_id: u64, refund: i128 },
    ClientRoleTransferred { escrow_id: u64, old_client: Address, new_client: Address },
    ArbiterUpdated { escrow_id: u64, arbiter: Option<Address> },
    TermsAccepted { escrow_id: u64, client: Address },
    DexSwap { escrow_id: u64, token_in: Address, token_out: Address, amount_in: i128 },
    MilestoneAdded { escrow_id: u64, milestone_id: u32, amount: i128 },
    MilestoneTitleUpdated { escrow_id: u64, milestone_id: u32 },
    MilestoneSubmitted { escrow_id: u64, milestone_id: u32, by: Address },
    MilestoneApproved { escrow_id: u64, milestone_id: u32, amount: i128 },
    MilestoneRejected { escrow_id: u64, milestone_id: u32, by: Address },
    MilestoneRejectedWithReason { escrow_id: u64, milestone_id: u32, by: Address, reason: Hash32 },
    MilestoneDisputed { escrow_id: u64, milestone_id: u32, by: Address },
    MilestoneUnlocked { escrow_id: u64, milestone_id: u32, prerequisite: u32 },
    MultisigApprovalRecorded {
        escrow_id: u64,
        milestone_id: u32,
        signer: Address,
        accrued: u32,
        threshold: u32,
    },
    FundsReleased { escrow_id: u64, to: Address, amount: i128 },
    DeadlineExtended { escrow_id: u64, old_deadline: u64, new_deadline: u64 },
    LockTimeExpired { escrow_id: u64, lock_time: u64 },
    LockTimeExtended { escrow_id: u64, old_lock_time: u64, new_lock_time: u64, by: Address },
    TimelockStarted { escrow_id: u64, duration: u64, start: u64 },
    TimelockReleased { escrow_id: u64, at: u64 },
    TimelockReleaseTimeSet { escrow_id: u64, by: Address, release_time: u64 },
    TimelockRelease { escrow_id: u64, milestone_id: u32, by: Address, amount: i128 },
    DisputeRaised { escrow_id: u64, by: Address },
    DisputeResolved { escrow_id: u64, client_amount: i128, freelancer_amount: i128 },
    DisputeTimeoutClaimed {
        escrow_id: u64,
        by: Address,
        client_amount: i128,
        freelancer_amount: i128,
    },
    DisputeEscalated { escrow_id: u64, by: Address, proposal_id: u64, amount: i128 },
    ReputationUpdated { address: Address, score: u64 },
    RecurringScheduleCreated { escrow_id: u64, amount: i128, payments: u32, start: u64 },
    RecurringSchedulePaused { escrow_id: u64, by: Address },
    RecurringScheduleResumed { escrow_id: u64, by: Address, next_payment_at: u64 },
    RecurringScheduleCancelled { escrow_id: u64, by: Address, refund: i128 },
    RecurringPaymentsProcessed {
        escrow_id: u64,
        count: u32,
        released: i128,
        next_due: Option<u64>,
    },
    CancellationRequested { escrow_id: u64, by: Address, dispute_deadline: u64 },
    CancellationApproved { escrow_id: u64, by: Address },
    CancellationExecuted { escrow_id: u64, requester_amount: i128, slash_amount: i128 },
    SlashApplied { escrow_id: u64, slashed_user: Address, recipient: Address, amount: i128 },
    SlashDisputed { escrow_id: u64, by: Address, amount: i128 },
    SlashDisputeResolved { escrow_id: u64, upheld: bool, amount: i128 },
}

/// One thing that the host does for a request. They are done in order, and the
/// request stands only if all of them succeed.
#[derive(Debug, PartialEq)]
pub enum Effect {
    /// The address has to have signed the request.
    RequireAuth(Address),
    /// Tokens move.
    Transfer { token: Address, from: Address, to: Address, amount: i128 },
    /// Observers are told.
    Publish(Event),
    /// Observers are told, and given a text.
    PublishText(Event, Text),
    /// Observers are told, and given the ids of addresses.
    PublishIds(Event, Ids),
    /// The payload's signature has to verify under its key.
    VerifySignature(OracleResolutionPayload),
    /// The contract's code is replaced.
    UpdateWasm(Hash32),
}

/// What `Effect` stands for.
pub enum EffectView {
    RequireAuth(Address),
    Transfer { token: Address, from: Address, to: Address, amount: i128 },
    Publish(Event),
    PublishText(Event, Seq<u8>),
    PublishIds(Event, Seq<u64>),
    VerifySignature(OracleResolutionPayload),
    UpdateWasm(Hash32),
}

impl View for Effect {
    type V = EffectView;

    open spec fn view(&self) -> EffectView {
        match *self {
            Effect::RequireAuth(who) => EffectView::RequireAuth(who),
            Effect::Transfer { token, from, to, amount } => EffectView::Transfer {
                token,
                from,
                to,
                amount,
            },
            Effect::Publish(event) => EffectView::Publish(event),
            Effect::PublishText(event, text) => EffectView::PublishText(event, text@),
            Effect::PublishIds(event, ids) => EffectView::PublishIds(event, ids@),
            Effect::VerifySignature(p) => EffectView::VerifySignature(p),
            Effect::UpdateWasm(code) => EffectView::UpdateWasm(code),
        }
    }
}

impl Record for Effect {
    fn dup(&self) -> (r: Self) {
        match self {
            Effect::RequireAuth(who) => Effect::RequireAuth(*who),
            Effect::Transfer { token, from, to, amount } => Effect::Transfer {
                token: *token,
                from: *from,
                to: *to,
                amount: *amount,
            },
            Effect::Publish(event) => Effect::Publish(*event),
            Effect::PublishText(event, text) => Effect::PublishText(*event, text.dup()),
            Effect::PublishIds(event, ids) => Effect::PublishIds(*event, ids.dup()),
            Effect::VerifySignature(p) => Effect::VerifySignature(*p),
            Effect::UpdateWasm(code) => Effect::UpdateWasm(*code),
        }
    }
}

/// What a list of effects stands for.
pub open spec fn effects(log: Seq<Effect>) -> Seq<EffectView> {
    Seq::new(log.len(), |i: int| log[i]@)
}

} // verus!
