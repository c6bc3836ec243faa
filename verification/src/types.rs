//! The entries that the contract keeps, and what they stand for.
use vstd::prelude::*;

use crate::host::{Ids, Weights};
use crate::store::{Key, Record};

verus! {


/// An account or a contract, by the number under which it is known here.
#[derive(Clone, Copy, Debug, PartialEq, Eq, Structural)]
pub struct Address {
    pub id: u64,
}

impl View for Address {
    type V = Address;

    open spec fn view(&self) -> Address {
        *self
    }
}

impl Record for Address {
    fn dup(&self) -> (r: Self) {
        *self
    }
}

impl Key for Address {
    fn same(&self, other: &Self) -> (r: bool) {
        *self == *other
    }
}

/// Thirty-two bytes: a hash or a public key.
#[derive(Clone, Copy, Debug, PartialEq, Eq, Structural)]
pub struct Hash32 {
    /// The first sixteen bytes, read as a big-endian number.
    pub hi: u128,
    /// The last sixteen bytes, read as a big-endian number.
    pub lo: u128,
}

impl View for Hash32 {
    type V = Hash32;

    open spec fn view(&self) -> Hash32 {
        *self
    }
}

impl Record for Hash32 {
    fn dup(&self) -> (r: Self) {
        *self
    }
}

impl Hash32 {
    /// Whether all bytes are zero.
    pub open spec fn zero(self) -> bool {
        self.hi == 0 && self.lo == 0
    }

    /// Whether all bytes are zero.
    pub fn is_zero(&self) -> (r: bool)
        ensures
            r == self.zero(),
    {
        self.hi == 0 && self.lo == 0
    }
}

/// Sixty-four bytes: a signature.
#[derive(Clone, Copy, Debug, PartialEq, Eq, Structural)]
pub struct Signature64 {
    pub first: Hash32,
    pub second: Hash32,
}

impl View for Signature64 {
    type V = Signature64;

    open spec fn view(&self) -> Signature64 {
        *self
    }
}

impl Record for Signature64 {
    fn dup(&self) -> (r: Self) {
        *self
    }
}

/// A text, as its bytes.
#[derive(Debug, PartialEq)]
pub struct Text {
    pub bytes: Vec<u8>,
}

impl View for Text {
    type V = Seq<u8>;

    open spec fn view(&self) -> Seq<u8> {
        self.bytes@
    }
}

impl Text {
    /// How many bytes the text has.
    pub fn len(&self) -> (n: usize)
        ensures
            n == self@.len(),
    {
        self.bytes.len()
    }
}

impl Record for Text {
    fn dup(&self) -> (r: Self) {
        let mut bytes: Vec<u8> = Vec::new();
        let mut i: usize = 0;
        while i < self.bytes.len()
            invariant
                i <= self.bytes.len(),
                bytes@ == self.bytes@.take(i as int),
            decreases self.bytes.len() - i,
        {
            bytes.push(self.bytes[i]);
            i = i + 1;
            assert(self.bytes@.take(i as int) =~= self.bytes@.take(i - 1).push(self.bytes@[i - 1]));
        }
        assert(self.bytes@.take(i as int) =~= self.bytes@);
        Text { bytes }
    }
}

/// Where an escrow stands.
#[derive(Clone, Copy, Debug, PartialEq, Eq, Structural)]
pub enum EscrowStatus {
    Active,
    Completed,
    Disputed,
    Cancelled,
    CancellationPending,
}

impl Key for EscrowStatus {
    fn same(&self, other: &Self) -> (r: bool) {
        *self == *other
    }
}

/// Where a milestone stands: one of the `MS_` constants.
pub type MilestoneStatus = u32;

pub const MS_PENDING: MilestoneStatus = 0;

pub const MS_SUBMITTED: MilestoneStatus = 1;

pub const MS_APPROVED: MilestoneStatus = 2;

pub const MS_RELEASED: MilestoneStatus = 3;

pub const MS_REJECTED: MilestoneStatus = 4;

pub const MS_DISPUTED: MilestoneStatus = 5;

/// The keys of the granular entries.
#[derive(Clone, Copy, Debug, PartialEq, Eq, Structural)]
pub enum PackedDataKey {
    EscrowMeta(u64),
    Milestone(u64, u32),
    RecurringConfig(u64),
}

impl Key for PackedDataKey {
    fn same(&self, other: &Self) -> (r: bool) {
        *self == *other
    }
}

/// A window after which approved funds may leave.
#[derive(Clone, Copy, Debug, PartialEq, Eq, Structural)]
pub struct Timelock {
    /// How long it lasts, in seconds.
    pub duration_ledger: u64,
    /// When it started, as a timestamp.
    pub start_ledger: u64,
}

impl View for Timelock {
    type V = Timelock;

    open spec fn view(&self) -> Timelock {
        *self
    }
}

impl Record for Timelock {
    fn dup(&self) -> (r: Self) {
        *self
    }
}

/// A timelock, or none.
pub type OptionalTimelock = Option<Timelock>;

/// A hash, or none.
pub type OptionalBytesN32 = Option<Hash32>;

/// On which side of the target a price must be.
#[derive(Clone, Copy, Debug, PartialEq, Eq, Structural)]
pub enum PriceDirection {
    Above,
    Below,
}

/// A price that releases a milestone.
#[derive(Clone, Copy, Debug, PartialEq, Eq, Structural)]
pub struct PriceCondition {
    pub asset: Address,
    pub target_price_usd: i128,
    pub direction: PriceDirection,
}

impl View for PriceCondition {
    type V = PriceCondition;

    open spec fn view(&self) -> PriceCondition {
        *self
    }
}

impl Record for PriceCondition {
    fn dup(&self) -> (r: Self) {
        *self
    }
}

/// A price condition, or none.
pub type OptionalPriceCondition = Option<PriceCondition>;

/// One signature under a milestone.
#[derive(Clone, Copy, Debug, PartialEq, Eq, Structural)]
pub struct ApprovalRecord {
    pub signer: Address,
    pub approved_at: u64,
}

impl View for ApprovalRecord {
    type V = ApprovalRecord;

    open spec fn view(&self) -> ApprovalRecord {
        *self
    }
}

impl Record for ApprovalRecord {
    fn dup(&self) -> (r: Self) {
        *self
    }
}

/// The signatures under a milestone, oldest first.
pub struct Approvals {
    pub items: Vec<ApprovalRecord>,
}

impl View for Approvals {
    type V = Seq<ApprovalRecord>;

    open spec fn view(&self) -> Seq<ApprovalRecord> {
        self.items@
    }
}

impl Approvals {
    /// An empty list.
    pub fn new() -> (r: Approvals)
        ensures
            r@ == Seq::<ApprovalRecord>::empty(),
    {
        Approvals { items: Vec::new() }
    }
}

impl Record for Approvals {
    fn dup(&self) -> (r: Self) {
        let mut items: Vec<ApprovalRecord> = Vec::new();
        let mut i: usize = 0;
        while i < self.items.len()
            invariant
                i <= self.items.len(),
                items@ == self.items@.take(i as int),
            decreases self.items.len() - i,
        {
            items.push(self.items[i]);
            i = i + 1;
            assert(self.items@.take(i as int) =~= self.items@.take(i - 1).push(self.items@[i - 1]));
        }
        assert(self.items@.take(i as int) =~= self.items@);
        Approvals { items }
    }
}

/// One piece of work within an escrow.
pub struct Milestone {
    pub id: u32,
    pub title: Text,
    pub description_hash: Hash32,
    pub amount: i128,
    pub status: MilestoneStatus,
    pub submitted_at: Option<u64>,
    pub resolved_at: Option<u64>,
    pub approvals: Approvals,
    pub rejection_reason: OptionalBytesN32,
    pub price_condition: OptionalPriceCondition,
    /// The milestone that has to be approved first, if any.
    pub depends_on: Option<u32>,
}

/// What `Milestone` stands for.
pub struct MilestoneView {
    pub id: u32,
    pub title: Seq<u8>,
    pub description_hash: Hash32,
    pub amount: i128,
    pub status: MilestoneStatus,
    pub submitted_at: Option<u64>,
    pub resolved_at: Option<u64>,
    pub approvals: Seq<ApprovalRecord>,
    pub rejection_reason: OptionalBytesN32,
    pub price_condition: OptionalPriceCondition,
    pub depends_on: Option<u32>,
}

impl View for Milestone {
    type V = MilestoneView;

    open spec fn view(&self) -> MilestoneView {
        MilestoneView {
            id: self.id,
            title: self.title@,
            description_hash: self.description_hash,
            amount: self.amount,
            status: self.status,
            submitted_at: self.submitted_at,
            resolved_at: self.resolved_at,
            approvals: self.approvals@,
            rejection_reason: self.rejection_reason,
            price_condition: self.price_condition,
            depends_on: self.depends_on,
        }
    }
}

impl Record for Milestone {
    fn dup(&self) -> (r: Self) {
        Milestone {
            id: self.id,
            title: self.title.dup(),
            description_hash: self.description_hash,
            amount: self.amount,
            status: self.status,
            submitted_at: self.submitted_at,
            resolved_at: self.resolved_at,
            approvals: self.approvals.dup(),
            rejection_reason: self.rejection_reason,
            price_condition: self.price_condition,
            depends_on: self.depends_on,
        }
    }
}

/// Texts in order.
pub struct Texts {
    pub items: Vec<Text>,
}

impl View for Texts {
    type V = Seq<Seq<u8>>;

    open spec fn view(&self) -> Seq<Seq<u8>> {
        Seq::new(self.items@.len(), |i: int| self.items@[i]@)
    }
}

impl Texts {
    /// An empty list.
    pub fn new() -> (r: Texts)
        ensures
            r@ == Seq::<Seq<u8>>::empty(),
    {
        let r = Texts { items: Vec::new() };
        assert(r@ =~= Seq::<Seq<u8>>::empty());
        r
    }

    /// Puts an item at the end.
    pub fn push(&mut self, x: Text)
        ensures
            final(self)@ == old(self)@.push(x@),
    {
        self.items.push(x);
        assert(self@ =~= old(self)@.push(x@));
    }
}

impl Record for Texts {
    fn dup(&self) -> (r: Self) {
        let mut r = Texts::new();
        let mut i: usize = 0;
        while i < self.items.len()
            invariant
                i <= self.items.len(),
                r@ == self@.take(i as int),
            decreases self.items.len() - i,
        {
            r.push(self.items[i].dup());
            i = i + 1;
            assert(self@.take(i as int) =~= self@.take(i - 1).push(self@[i - 1]));
        }
        assert(self@.take(i as int) =~= self@);
        r
    }
}

/// Hashes in order.
pub struct Hashes {
    pub items: Vec<Hash32>,
}

impl View for Hashes {
    type V = Seq<Hash32>;

    open spec fn view(&self) -> Seq<Hash32> {
        self.items@
    }
}

impl Hashes {
    /// An empty list.
    pub fn new() -> (r: Hashes)
        ensures
            r@ == Seq::<Hash32>::empty(),
    {
        Hashes { items: Vec::new() }
    }
}

impl Record for Hashes {
    fn dup(&self) -> (r: Self) {
        let mut items: Vec<Hash32> = Vec::new();
        let mut i: usize = 0;
        while i < self.items.len()
            invariant
                i <= self.items.len(),
                items@ == self.items@.take(i as int),
            decreases self.items.len() - i,
        {
            items.push(self.items[i]);
            i = i + 1;
            assert(self.items@.take(i as int) =~= self.items@.take(i - 1).push(self.items@[i - 1]));
        }
        assert(self.items@.take(i as int) =~= self.items@);
        Hashes { items }
    }
}

/// Milestones in the order of their ids.
pub struct Milestones {
    pub items: Vec<Milestone>,
}

impl View for Milestones {
    type V = Seq<MilestoneView>;

    open spec fn view(&self) -> Seq<MilestoneView> {
        Seq::new(self.items@.len(), |i: int| self.items@[i]@)
    }
}

impl Milestones {
    /// An empty list.
    pub fn new() -> (r: Milestones)
        ensures
            r@ == Seq::<MilestoneView>::empty(),
    {
        let r = Milestones { items: Vec::new() };
        assert(r@ =~= Seq::<MilestoneView>::empty());
        r
    }

    /// Puts an item at the end.
    pub fn push(&mut self, x: Milestone)
        ensures
            final(self)@ == old(self)@.push(x@),
    {
        self.items.push(x);
        assert(self@ =~= old(self)@.push(x@));
    }
}

impl Record for Milestones {
    fn dup(&self) -> (r: Self) {
        let mut r = Milestones::new();
        let mut i: usize = 0;
        while i < self.items.len()
            invariant
                i <= self.items.len(),
                r@ == self@.take(i as int),
            decreases self.items.len() - i,
        {
            r.push(self.items[i].dup());
            i = i + 1;
            assert(self@.take(i as int) =~= self@.take(i - 1).push(self@[i - 1]));
        }
        assert(self@.take(i as int) =~= self@);
        r
    }
}

/// The header of an escrow; its milestones are entries of their own.
pub struct EscrowMeta {
    pub escrow_id: u64,
    pub client: Address,
    pub freelancer: Address,
    pub token: Address,
    pub total_amount: i128,
    /// What milestones may claim together: the total, less what was split off.
    pub allotted_amount: i128,
    /// The sum of the milestone amounts added so far.
    pub allocated_amount: i128,
    /// What has not been paid out.
    pub remaining_balance: i128,
    pub status: EscrowStatus,
    pub milestone_count: u32,
    /// How many milestones were approved.
    pub approved_count: u32,
    /// How many milestones were paid out.
    pub released_count: u32,
    /// How many milestones wait for approval.
    pub submitted_count: u32,
    pub arbiter: Option<Address>,
    /// Who may approve, by address id.
    pub buyer_signers: Ids,
    pub created_at: u64,
    pub deadline: Option<u64>,
    /// Funds stay locked until this timestamp.
    pub lock_time: Option<u64>,
    /// The latest lock time that may be set.
    pub lock_time_extension: Option<u64>,
    /// The release window after approval.
    pub timelock: OptionalTimelock,
    /// After how many ledgers a dispute may be claimed.
    pub dispute_timeout_ledger: Option<u32>,
    /// The ledger in which the dispute was raised.
    pub dispute_started_ledger: Option<u32>,
    pub brief_hash: Hash32,
    /// Prepaid storage rent.
    pub rent_balance: i128,
    /// Up to when rent has been collected.
    pub last_rent_collection_at: u64,
    /// When the dispute was raised, as a timestamp.
    pub dispute_start_ledger: Option<u64>,
    /// The weight of each of `buyer_signers`, in the same order; empty without a policy.
    pub multisig_weights: Weights,
    /// The weight that approves a milestone; zero without a policy.
    pub multisig_threshold: u32,
    /// The tolerated price move in basis points; zero switches the check off.
    pub slippage_bps: u32,
    pub slippage_reference_price: i128,
    /// The terms that the client has to accept before a release, if any.
    pub terms_hash: OptionalBytesN32,
    pub arbiter_fee_bps: u32,
}

/// What `EscrowMeta` stands for.
pub struct MetaView {
    pub escrow_id: u64,
    pub client: Address,
    pub freelancer: Address,
    pub token: Address,
    pub total_amount: i128,
    pub allotted_amount: i128,
    pub allocated_amount: i128,
    pub remaining_balance: i128,
    pub status: EscrowStatus,
    pub milestone_count: u32,
    pub approved_count: u32,
    pub released_count: u32,
    pub submitted_count: u32,
    pub arbiter: Option<Address>,
    pub buyer_signers: Seq<u64>,
    pub created_at: u64,
    pub deadline: Option<u64>,
    pub lock_time: Option<u64>,
    pub lock_time_extension: Option<u64>,
    pub timelock: OptionalTimelock,
    pub dispute_timeout_ledger: Option<u32>,
    pub dispute_started_ledger: Option<u32>,
    pub brief_hash: Hash32,
    pub rent_balance: i128,
    pub last_rent_collection_at: u64,
    pub dispute_start_ledger: Option<u64>,
    pub multisig_weights: Seq<u32>,
    pub multisig_threshold: u32,
    pub slippage_bps: u32,
    pub slippage_reference_price: i128,
    pub terms_hash: OptionalBytesN32,
    pub arbiter_fee_bps: u32,
}

impl View for EscrowMeta {
    type V = MetaView;

    open spec fn view(&self) -> MetaView {
        MetaView {
            escrow_id: self.escrow_id,
            client: self.client,
            freelancer: self.freelancer,
            token: self.token,
            total_amount: self.total_amount,
            allotted_amount: self.allotted_amount,
            allocated_amount: self.allocated_amount,
            remaining_balance: self.remaining_balance,
            status: self.status,
            milestone_count: self.milestone_count,
            approved_count: self.approved_count,
            released_count: self.released_count,
            submitted_count: self.submitted_count,
            arbiter: self.arbiter,
            buyer_signers: self.buyer_signers@,
            created_at: self.created_at,
            deadline: self.deadline,
            lock_time: self.lock_time,
            lock_time_extension: self.lock_time_extension,
            timelock: self.timelock,
            dispute_timeout_ledger: self.dispute_timeout_ledger,
            dispute_started_ledger: self.dispute_started_ledger,
            brief_hash: self.brief_hash,
            rent_balance: self.rent_balance,
            last_rent_collection_at: self.last_rent_collection_at,
            dispute_start_ledger: self.dispute_start_ledger,
            multisig_weights: self.multisig_weights@,
            multisig_threshold: self.multisig_threshold,
            slippage_bps: self.slippage_bps,
            slippage_reference_price: self.slippage_reference_price,
            terms_hash: self.terms_hash,
            arbiter_fee_bps: self.arbiter_fee_bps,
        }
    }
}

impl Record for EscrowMeta {
    fn dup(&self) -> (r: Self) {
        EscrowMeta {
            escrow_id: self.escrow_id,
            client: self.client,
            freelancer: self.freelancer,
            token: self.token,
            total_amount: self.total_amount,
            allotted_amount: self.allotted_amount,
            allocated_amount: self.allocated_amount,
            remaining_balance: self.remaining_balance,
            status: self.status,
            milestone_count: self.milestone_count,
            approved_count: self.approved_count,
            released_count: self.released_count,
            submitted_count: self.submitted_count,
            arbiter: self.arbiter,
            buyer_signers: self.buyer_signers.dup(),
            created_at: self.created_at,
            deadline: self.deadline,
            lock_time: self.lock_time,
            lock_time_extension: self.lock_time_extension,
            timelock: self.timelock,
            dispute_timeout_ledger: self.dispute_timeout_ledger,
            dispute_started_ledger: self.dispute_started_ledger,
            brief_hash: self.brief_hash,
            rent_balance: self.rent_balance,
            last_rent_collection_at: self.last_rent_collection_at,
            dispute_start_ledger: self.dispute_start_ledger,
            multisig_weights: self.multisig_weights.dup(),
            multisig_threshold: self.multisig_threshold,
            slippage_bps: self.slippage_bps,
            slippage_reference_price: self.slippage_reference_price,
            terms_hash: self.terms_hash,
            arbiter_fee_bps: self.arbiter_fee_bps,
        }
    }
}

/// An escrow with its milestones.
pub struct EscrowState {
    pub escrow_id: u64,
    pub client: Address,
    pub freelancer: Address,
    pub token: Address,
    pub total_amount: i128,
    pub remaining_balance: i128,
    pub status: EscrowStatus,
    pub milestones: Milestones,
    pub arbiter: Option<Address>,
    pub buyer_signers: Ids,
    pub created_at: u64,
    pub deadline: Option<u64>,
    pub lock_time: Option<u64>,
    pub lock_time_extension: Option<u64>,
    pub timelock: OptionalTimelock,
    pub dispute_timeout_ledger: Option<u32>,
    pub dispute_started_ledger: Option<u32>,
    pub brief_hash: Hash32,
    pub multisig_approvers: Ids,
    pub multisig_weights: Weights,
    pub multisig_threshold: u32,
}

/// What `EscrowState` stands for.
pub struct EscrowStateView {
    pub escrow_id: u64,
    pub client: Address,
    pub freelancer: Address,
    pub token: Address,
    pub total_amount: i128,
    pub remaining_balance: i128,
    pub status: EscrowStatus,
    pub milestones: Seq<MilestoneView>,
    pub arbiter: Option<Address>,
    pub buyer_signers: Seq<u64>,
    pub created_at: u64,
    pub deadline: Option<u64>,
    pub lock_time: Option<u64>,
    pub lock_time_extension: Option<u64>,
    pub timelock: OptionalTimelock,
    pub dispute_timeout_ledger: Option<u32>,
    pub dispute_started_ledger: Option<u32>,
    pub brief_hash: Hash32,
    pub multisig_approvers: Seq<u64>,
    pub multisig_weights: Seq<u32>,
    pub multisig_threshold: u32,
}

impl View for EscrowState {
    type V = EscrowStateView;

    open spec fn view(&self) -> EscrowStateView {
        EscrowStateView {
            escrow_id: self.escrow_id,
            client: self.client,
            freelancer: self.freelancer,
            token: self.token,
            total_amount: self.total_amount,
            remaining_balance: self.remaining_balance,
            status: self.status,
            milestones: self.milestones@,
            arbiter: self.arbiter,
            buyer_signers: self.buyer_signers@,
            created_at: self.created_at,
            deadline: self.deadline,
            lock_time: self.lock_time,
            lock_time_extension: self.lock_time_extension,
            timelock: self.timelock,
            dispute_timeout_ledger: self.dispute_timeout_ledger,
            dispute_started_ledger: self.dispute_started_ledger,
            brief_hash: self.brief_hash,
            multisig_approvers: self.multisig_approvers@,
            multisig_weights: self.multisig_weights@,
            multisig_threshold: self.multisig_threshold,
        }
    }
}

impl Record for EscrowState {
    fn dup(&self) -> (r: Self) {
        EscrowState {
            escrow_id: self.escrow_id,
            client: self.client,
            freelancer: self.freelancer,
            token: self.token,
            total_amount: self.total_amount,
            remaining_balance: self.remaining_balance,
            status: self.status,
            milestones: self.milestones.dup(),
            arbiter: self.arbiter,
            buyer_signers: self.buyer_signers.dup(),
            created_at: self.created_at,
            deadline: self.deadline,
            lock_time: self.lock_time,
            lock_time_extension: self.lock_time_extension,
            timelock: self.timelock,
            dispute_timeout_ledger: self.dispute_timeout_ledger,
            dispute_started_ledger: self.dispute_started_ledger,
            brief_hash: self.brief_hash,
            multisig_approvers: self.multisig_approvers.dup(),
            multisig_weights: self.multisig_weights.dup(),
            multisig_threshold: self.multisig_threshold,
        }
    }
}

/// Who approves, with what weight, and what weight is needed.
pub struct MultisigConfig {
    pub approvers: Ids,
    pub weights: Weights,
    pub threshold: u32,
}

/// What `MultisigConfig` stands for.
pub struct MultisigView {
    pub approvers: Seq<u64>,
    pub weights: Seq<u32>,
    pub threshold: u32,
}

impl View for MultisigConfig {
    type V = MultisigView;

    open spec fn view(&self) -> MultisigView {
        MultisigView {
            approvers: self.approvers@,
            weights: self.weights@,
            threshold: self.threshold,
        }
    }
}

impl Record for MultisigConfig {
    fn dup(&self) -> (r: Self) {
        MultisigConfig {
            approvers: self.approvers.dup(),
            weights: self.weights.dup(),
            threshold: self.threshold,
        }
    }
}

/// How often a recurring payment falls due.
#[derive(Clone, Copy, Debug, PartialEq, Eq, Structural)]
pub enum RecurringInterval {
    Daily,
    Weekly,
    Monthly,
}

/// A schedule of payments.
#[derive(Clone, Copy, Debug, PartialEq, Eq, Structural)]
pub struct RecurringPaymentConfig {
    pub interval: RecurringInterval,
    pub payment_amount: i128,
    pub start_time: u64,
    pub next_payment_at: u64,
    pub end_date: Option<u64>,
    pub total_payments: u32,
    pub payments_remaining: u32,
    pub processed_payments: u32,
    pub final_payment_amount: Option<i128>,
    pub paused: bool,
    pub cancelled: bool,
    pub paused_at: Option<u64>,
    pub last_payment_at: Option<u64>,
}

impl View for RecurringPaymentConfig {
    type V = RecurringPaymentConfig;

    open spec fn view(&self) -> RecurringPaymentConfig {
        *self
    }
}

impl Record for RecurringPaymentConfig {
    fn dup(&self) -> (r: Self) {
        *self
    }
}

/// The state of a schedule in short.
#[derive(Clone, Copy, Debug, PartialEq, Eq, Structural)]
pub struct RecurringScheduleStatus {
    pub is_active: bool,
    pub is_paused: bool,
    pub is_cancelled: bool,
    pub next_payment_at: u64,
    pub payments_remaining: u32,
    pub payment_amount: i128,
}

impl View for RecurringScheduleStatus {
    type V = RecurringScheduleStatus;

    open spec fn view(&self) -> RecurringScheduleStatus {
        *self
    }
}

impl Record for RecurringScheduleStatus {
    fn dup(&self) -> (r: Self) {
        *self
    }
}

/// A fee rate from an escrow amount on.
#[derive(Clone, Copy, Debug, PartialEq, Eq, Structural)]
pub struct FeeTier {
    pub min_total_amount: i128,
    pub fee_bps: u32,
}

impl View for FeeTier {
    type V = FeeTier;

    open spec fn view(&self) -> FeeTier {
        *self
    }
}

impl Record for FeeTier {
    fn dup(&self) -> (r: Self) {
        *self
    }
}

/// Fee tiers in rising order.
pub struct FeeTiers {
    pub items: Vec<FeeTier>,
}

impl View for FeeTiers {
    type V = Seq<FeeTier>;

    open spec fn view(&self) -> Seq<FeeTier> {
        self.items@
    }
}

impl FeeTiers {
    /// An empty list.
    pub fn new() -> (r: FeeTiers)
        ensures
            r@ == Seq::<FeeTier>::empty(),
    {
        FeeTiers { items: Vec::new() }
    }
}

impl Record for FeeTiers {
    fn dup(&self) -> (r: Self) {
        let mut items: Vec<FeeTier> = Vec::new();
        let mut i: usize = 0;
        while i < self.items.len()
            invariant
                i <= self.items.len(),
                items@ == self.items@.take(i as int),
            decreases self.items.len() - i,
        {
            items.push(self.items[i]);
            i = i + 1;
            assert(self.items@.take(i as int) =~= self.items@.take(i - 1).push(self.items@[i - 1]));
        }
        assert(self.items@.take(i as int) =~= self.items@);
        FeeTiers { items }
    }
}

/// The platform fee of an escrow.
#[derive(Clone, Copy, Debug, PartialEq, Eq, Structural)]
pub struct EscrowFeeSnapshot {
    pub fee_bps: u32,
    pub fee_amount: i128,
    pub collected: bool,
}

impl View for EscrowFeeSnapshot {
    type V = EscrowFeeSnapshot;

    open spec fn view(&self) -> EscrowFeeSnapshot {
        *self
    }
}

impl Record for EscrowFeeSnapshot {
    fn dup(&self) -> (r: Self) {
        *self
    }
}

/// What is known of how an address behaved.
#[derive(Clone, Copy, Debug, PartialEq, Eq, Structural)]
pub struct ReputationRecord {
    pub address: Address,
    pub total_score: u64,
    pub completed_escrows: u32,
    pub disputed_escrows: u32,
    pub disputes_won: u32,
    pub total_volume: i128,
    pub slash_count: u32,
    pub total_slashed: i128,
    pub last_updated: u64,
}

impl View for ReputationRecord {
    type V = ReputationRecord;

    open spec fn view(&self) -> ReputationRecord {
        *self
    }
}

impl Record for ReputationRecord {
    fn dup(&self) -> (r: Self) {
        *self
    }
}

/// A wish to cancel an escrow.
pub struct CancellationRequest {
    pub escrow_id: u64,
    pub requester: Address,
    pub reason: Text,
    pub requested_at: u64,
    pub dispute_deadline: u64,
    pub disputed: bool,
    pub counterparty_approved: bool,
}

/// What `CancellationRequest` stands for.
pub struct CancellationView {
    pub escrow_id: u64,
    pub requester: Address,
    pub reason: Seq<u8>,
    pub requested_at: u64,
    pub dispute_deadline: u64,
    pub disputed: bool,
    pub counterparty_approved: bool,
}

impl View for CancellationRequest {
    type V = CancellationView;

    open spec fn view(&self) -> CancellationView {
        CancellationView {
            escrow_id: self.escrow_id,
            requester: self.requester,
            reason: self.reason@,
            requested_at: self.requested_at,
            dispute_deadline: self.dispute_deadline,
            disputed: self.disputed,
            counterparty_approved: self.counterparty_approved,
        }
    }
}

impl Record for CancellationRequest {
    fn dup(&self) -> (r: Self) {
        CancellationRequest {
            escrow_id: self.escrow_id,
            requester: self.requester,
            reason: self.reason.dup(),
            requested_at: self.requested_at,
            dispute_deadline: self.dispute_deadline,
            disputed: self.disputed,
            counterparty_approved: self.counterparty_approved,
        }
    }
}

/// A part of a cancelled escrow that is held against who cancelled.
pub struct SlashRecord {
    pub escrow_id: u64,
    pub slashed_user: Address,
    pub recipient: Address,
    pub amount: i128,
    pub reason: Text,
    pub slashed_at: u64,
    pub disputed: bool,
}

/// What `SlashRecord` stands for.
pub struct SlashView {
    pub escrow_id: u64,
    pub slashed_user: Address,
    pub recipient: Address,
    pub amount: i128,
    pub reason: Seq<u8>,
    pub slashed_at: u64,
    pub disputed: bool,
}

impl View for SlashRecord {
    type V = SlashView;

    open spec fn view(&self) -> SlashView {
        SlashView {
            escrow_id: self.escrow_id,
            slashed_user: self.slashed_user,
            recipient: self.recipient,
            amount: self.amount,
            reason: self.reason@,
            slashed_at: self.slashed_at,
            disputed: self.disputed,
        }
    }
}

impl Record for SlashRecord {
    fn dup(&self) -> (r: Self) {
        SlashRecord {
            escrow_id: self.escrow_id,
            slashed_user: self.slashed_user,
            recipient: self.recipient,
            amount: self.amount,
            reason: self.reason.dup(),
            slashed_at: self.slashed_at,
            disputed: self.disputed,
        }
    }
}

/// Slash records in the order of the index.
pub struct SlashRecords {
    pub items: Vec<SlashRecord>,
}

impl View for SlashRecords {
    type V = Seq<SlashView>;

    open spec fn view(&self) -> Seq<SlashView> {
        Seq::new(self.items@.len(), |i: int| self.items@[i]@)
    }
}

impl SlashRecords {
    /// An empty list.
    pub fn new() -> (r: SlashRecords)
        ensures
            r@ == Seq::<SlashView>::empty(),
    {
        let r = SlashRecords { items: Vec::new() };
        assert(r@ =~= Seq::<SlashView>::empty());
        r
    }

    /// Puts an item at the end.
    pub fn push(&mut self, x: SlashRecord)
        ensures
            final(self)@ == old(self)@.push(x@),
    {
        self.items.push(x);
        assert(self@ =~= old(self)@.push(x@));
    }
}

impl Record for SlashRecords {
    fn dup(&self) -> (r: Self) {
        let mut r = SlashRecords::new();
        let mut i: usize = 0;
        while i < self.items.len()
            invariant
                i <= self.items.len(),
                r@ == self@.take(i as int),
            decreases self.items.len() - i,
        {
            r.push(self.items[i].dup());
            i = i + 1;
            assert(self@.take(i as int) =~= self@.take(i - 1).push(self@[i - 1]));
        }
        assert(self@.take(i as int) =~= self@);
        r
    }
}

/// A milestone of a template.
pub struct MilestoneTemplate {
    pub title: Text,
    pub description_hash: Hash32,
    pub amount: i128,
}

/// What `MilestoneTemplate` stands for.
pub struct MilestoneTemplateView {
    pub title: Seq<u8>,
    pub description_hash: Hash32,
    pub amount: i128,
}

impl View for MilestoneTemplate {
    type V = MilestoneTemplateView;

    open spec fn view(&self) -> MilestoneTemplateView {
        MilestoneTemplateView {
            title: self.title@,
            description_hash: self.description_hash,
            amount: self.amount,
        }
    }
}

impl Record for MilestoneTemplate {
    fn dup(&self) -> (r: Self) {
        MilestoneTemplate {
            title: self.title.dup(),
            description_hash: self.description_hash,
            amount: self.amount,
        }
    }
}

/// The milestones of a template, in order.
pub struct MilestoneTemplates {
    pub items: Vec<MilestoneTemplate>,
}

impl View for MilestoneTemplates {
    type V = Seq<MilestoneTemplateView>;

    open spec fn view(&self) -> Seq<MilestoneTemplateView> {
        Seq::new(self.items@.len(), |i: int| self.items@[i]@)
    }
}

impl MilestoneTemplates {
    /// An empty list.
    pub fn new() -> (r: MilestoneTemplates)
        ensures
            r@ == Seq::<MilestoneTemplateView>::empty(),
    {
        let r = MilestoneTemplates { items: Vec::new() };
        assert(r@ =~= Seq::<MilestoneTemplateView>::empty());
        r
    }

    /// Puts an item at the end.
    pub fn push(&mut self, x: MilestoneTemplate)
        ensures
            final(self)@ == old(self)@.push(x@),
    {
        self.items.push(x);
        assert(self@ =~= old(self)@.push(x@));
    }
}

impl Record for MilestoneTemplates {
    fn dup(&self) -> (r: Self) {
        let mut r = MilestoneTemplates::new();
        let mut i: usize = 0;
        while i < self.items.len()
            invariant
                i <= self.items.len(),
                r@ == self@.take(i as int),
            decreases self.items.len() - i,
        {
            r.push(self.items[i].dup());
            i = i + 1;
            assert(self@.take(i as int) =~= self@.take(i - 1).push(self@[i - 1]));
        }
        assert(self@.take(i as int) =~= self@);
        r
    }
}

/// A pattern for escrows.
pub struct EscrowTemplate {
    pub id: u64,
    pub creator: Address,
    pub name: Text,
    pub milestones: MilestoneTemplates,
}

/// What `EscrowTemplate` stands for.
pub struct TemplateView {
    pub id: u64,
    pub creator: Address,
    pub name: Seq<u8>,
    pub milestones: Seq<MilestoneTemplateView>,
}

impl View for EscrowTemplate {
    type V = TemplateView;

    open spec fn view(&self) -> TemplateView {
        TemplateView {
            id: self.id,
            creator: self.creator,
            name: self.name@,
            milestones: self.milestones@,
        }
    }
}

impl Record for EscrowTemplate {
    fn dup(&self) -> (r: Self) {
        EscrowTemplate {
            id: self.id,
            creator: self.creator,
            name: self.name.dup(),
            milestones: self.milestones.dup(),
        }
    }
}

/// The client's word on the terms.
#[derive(Clone, Copy, Debug, PartialEq, Eq, Structural)]
pub struct TermsAcceptance {
    pub escrow_id: u64,
    pub client: Address,
    pub terms_hash: Hash32,
    pub accepted: bool,
    pub accepted_at: Option<u64>,
}

impl View for TermsAcceptance {
    type V = TermsAcceptance;

    open spec fn view(&self) -> TermsAcceptance {
        *self
    }
}

impl Record for TermsAcceptance {
    fn dup(&self) -> (r: Self) {
        *self
    }
}

/// A pair of tokens, from and to.
#[derive(Clone, Copy, Debug, PartialEq, Eq, Structural)]
pub struct TokenPair {
    pub from: Address,
    pub to: Address,
}

impl View for TokenPair {
    type V = TokenPair;

    open spec fn view(&self) -> TokenPair {
        *self
    }
}

impl Record for TokenPair {
    fn dup(&self) -> (r: Self) {
        *self
    }
}

/// The pairs that the exchange trades.
pub struct DexConfig {
    pub items: Vec<TokenPair>,
}

impl View for DexConfig {
    type V = Seq<TokenPair>;

    open spec fn view(&self) -> Seq<TokenPair> {
        self.items@
    }
}

impl DexConfig {
    /// An empty list.
    pub fn new() -> (r: DexConfig)
        ensures
            r@ == Seq::<TokenPair>::empty(),
    {
        DexConfig { items: Vec::new() }
    }
}

impl Record for DexConfig {
    fn dup(&self) -> (r: Self) {
        let mut items: Vec<TokenPair> = Vec::new();
        let mut i: usize = 0;
        while i < self.items.len()
            invariant
                i <= self.items.len(),
                items@ == self.items@.take(i as int),
            decreases self.items.len() - i,
        {
            items.push(self.items[i]);
            i = i + 1;
            assert(self.items@.take(i as int) =~= self.items@.take(i - 1).push(self.items@[i - 1]));
        }
        assert(self.items@.take(i as int) =~= self.items@);
        DexConfig { items }
    }
}

/// A swap.
#[derive(Clone, Copy, Debug, PartialEq, Eq, Structural)]
pub struct DexSwapRecord {
    pub escrow_id: u64,
    pub token_in: Address,
    pub token_out: Address,
    pub amount_in: i128,
    pub min_amount_out: i128,
    pub amount_out: Option<i128>,
    pub swapped_at: Option<u64>,
    pub success: bool,
}

impl View for DexSwapRecord {
    type V = DexSwapRecord;

    open spec fn view(&self) -> DexSwapRecord {
        *self
    }
}

impl Record for DexSwapRecord {
    fn dup(&self) -> (r: Self) {
        *self
    }
}

/// A hash that a party put forward in a dispute.
pub struct DisputeEvidence {
    pub escrow_id: u64,
    pub submitted_by: Address,
    pub evidence_hash: Hash32,
    pub submitted_at: u64,
    pub description: Text,
}

/// What `DisputeEvidence` stands for.
pub struct EvidenceView {
    pub escrow_id: u64,
    pub submitted_by: Address,
    pub evidence_hash: Hash32,
    pub submitted_at: u64,
    pub description: Seq<u8>,
}

impl View for DisputeEvidence {
    type V = EvidenceView;

    open spec fn view(&self) -> EvidenceView {
        EvidenceView {
            escrow_id: self.escrow_id,
            submitted_by: self.submitted_by,
            evidence_hash: self.evidence_hash,
            submitted_at: self.submitted_at,
            description: self.description@,
        }
    }
}

impl Record for DisputeEvidence {
    fn dup(&self) -> (r: Self) {
        DisputeEvidence {
            escrow_id: self.escrow_id,
            submitted_by: self.submitted_by,
            evidence_hash: self.evidence_hash,
            submitted_at: self.submitted_at,
            description: self.description.dup(),
        }
    }
}

/// Evidence in the order in which it came.
pub struct DisputeEvidences {
    pub items: Vec<DisputeEvidence>,
}

impl View for DisputeEvidences {
    type V = Seq<EvidenceView>;

    open spec fn view(&self) -> Seq<EvidenceView> {
        Seq::new(self.items@.len(), |i: int| self.items@[i]@)
    }
}

impl DisputeEvidences {
    /// An empty list.
    pub fn new() -> (r: DisputeEvidences)
        ensures
            r@ == Seq::<EvidenceView>::empty(),
    {
        let r = DisputeEvidences { items: Vec::new() };
        assert(r@ =~= Seq::<EvidenceView>::empty());
        r
    }

    /// Puts an item at the end.
    pub fn push(&mut self, x: DisputeEvidence)
        ensures
            final(self)@ == old(self)@.push(x@),
    {
        self.items.push(x);
        assert(self@ =~= old(self)@.push(x@));
    }
}

impl Record for DisputeEvidences {
    fn dup(&self) -> (r: Self) {
        let mut r = DisputeEvidences::new();
        let mut i: usize = 0;
        while i < self.items.len()
            invariant
                i <= self.items.len(),
                r@ == self@.take(i as int),
            decreases self.items.len() - i,
        {
            r.push(self.items[i].dup());
            i = i + 1;
            assert(self@.take(i as int) =~= self@.take(i - 1).push(self@[i - 1]));
        }
        assert(self@.take(i as int) =~= self@);
        r
    }
}

/// A step from one status to another; `actor` is empty where nobody is named.
#[derive(Clone, Copy, Debug, PartialEq, Eq, Structural)]
pub struct StateHistoryEntry {
    pub from_status: EscrowStatus,
    pub to_status: EscrowStatus,
    pub actor: Option<Address>,
    pub timestamp: u64,
}

impl View for StateHistoryEntry {
    type V = StateHistoryEntry;

    open spec fn view(&self) -> StateHistoryEntry {
        *self
    }
}

impl Record for StateHistoryEntry {
    fn dup(&self) -> (r: Self) {
        *self
    }
}

/// The steps of an escrow, oldest first.
pub struct StateHistory {
    pub items: Vec<StateHistoryEntry>,
}

impl View for StateHistory {
    type V = Seq<StateHistoryEntry>;

    open spec fn view(&self) -> Seq<StateHistoryEntry> {
        self.items@
    }
}

impl StateHistory {
    /// An empty list.
    pub fn new() -> (r: StateHistory)
        ensures
            r@ == Seq::<StateHistoryEntry>::empty(),
    {
        StateHistory { items: Vec::new() }
    }
}

impl Record for StateHistory {
    fn dup(&self) -> (r: Self) {
        let mut items: Vec<StateHistoryEntry> = Vec::new();
        let mut i: usize = 0;
        while i < self.items.len()
            invariant
                i <= self.items.len(),
                items@ == self.items@.take(i as int),
            decreases self.items.len() - i,
        {
            items.push(self.items[i]);
            i = i + 1;
            assert(self.items@.take(i as int) =~= self.items@.take(i - 1).push(self.items@[i - 1]));
        }
        assert(self.items@.take(i as int) =~= self.items@);
        StateHistory { items }
    }
}

/// Which code runs, and since when.
#[derive(Clone, Copy, Debug, PartialEq, Eq, Structural)]
pub struct ContractVersionInfo {
    pub version: u32,
    pub deployed_at: u64,
    pub last_upgraded_at: u64,
    pub upgrade_count: u32,
}

impl View for ContractVersionInfo {
    type V = ContractVersionInfo;

    open spec fn view(&self) -> ContractVersionInfo {
        *self
    }
}

impl Record for ContractVersionInfo {
    fn dup(&self) -> (r: Self) {
        *self
    }
}

/// An oracle's decision on a dispute, signed.
#[derive(Clone, Copy, Debug, PartialEq, Eq, Structural)]
pub struct OracleResolutionPayload {
    pub escrow_id: u64,
    pub client_bps: u32,
    pub freelancer_bps: u32,
    pub expires_at: u64,
    pub oracle_pubkey: Hash32,
    pub signature: Signature64,
}

impl View for OracleResolutionPayload {
    type V = OracleResolutionPayload;

    open spec fn view(&self) -> OracleResolutionPayload {
        *self
    }
}

impl Record for OracleResolutionPayload {
    fn dup(&self) -> (r: Self) {
        *self
    }
}

/// The bridge that a token came over.
#[derive(Clone, Copy, Debug, PartialEq, Eq, Structural)]
pub enum BridgeProtocol {
    Wormhole,
    Other,
}

/// A token that stands for one of another chain.
pub struct WrappedTokenInfo {
    pub stellar_address: Address,
    pub origin_chain: Text,
    pub is_approved: bool,
}

/// What `WrappedTokenInfo` stands for.
pub struct WrappedTokenView {
    pub stellar_address: Address,
    pub origin_chain: Seq<u8>,
    pub is_approved: bool,
}

impl View for WrappedTokenInfo {
    type V = WrappedTokenView;

    open spec fn view(&self) -> WrappedTokenView {
        WrappedTokenView {
            stellar_address: self.stellar_address,
            origin_chain: self.origin_chain@,
            is_approved: self.is_approved,
        }
    }
}

impl Record for WrappedTokenInfo {
    fn dup(&self) -> (r: Self) {
        WrappedTokenInfo {
            stellar_address: self.stellar_address,
            origin_chain: self.origin_chain.dup(),
            is_approved: self.is_approved,
        }
    }
}

/// How far a bridged token has been confirmed.
#[derive(Clone, Copy, Debug, PartialEq, Eq, Structural)]
pub struct BridgeConfirmation {
    pub token: Address,
    pub bridge: BridgeProtocol,
    pub confirmations: u32,
    pub is_finalized: bool,
    pub updated_at: u64,
}

impl View for BridgeConfirmation {
    type V = BridgeConfirmation;

    open spec fn view(&self) -> BridgeConfirmation {
        *self
    }
}

impl Record for BridgeConfirmation {
    fn dup(&self) -> (r: Self) {
        *self
    }
}

/// A request that somebody else hands in for its signer.
pub struct MetaTransaction {
    pub signer: Address,
    pub nonce: u64,
    pub deadline: u64,
    pub function_name: Text,
    pub function_args: Text,
    pub signature: Signature64,
}

} // verus!
