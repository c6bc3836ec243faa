use vstd::prelude::*;

verus! {

/// The largest total amount of an escrow, in stroops: ten billion XLM.
pub const MAX_ESCROW_AMOUNT: i128 = 100_000_000_000_000_000;

/// For how many seconds a cancellation may be disputed.
pub const CANCELLATION_DISPUTE_PERIOD: u64 = 120_960;

/// For how many seconds a slash may be disputed.
pub const SLASH_DISPUTE_PERIOD: u64 = 51_840;

/// The part of the remaining balance that a cancellation costs, in percent.
pub const SLASH_PERCENTAGE: u64 = 10;

/// How long a rent period is, in seconds.
pub const RENT_PERIOD_SECONDS: u64 = 86_400;

/// For how many periods a new entry pays in advance.
pub const RENT_RESERVE_PERIODS: u64 = 30;

/// What one entry costs for one period.
pub const RENT_PER_ENTRY_PER_PERIOD: i128 = 1;

/// How many milestones an escrow may have, unless the admin says otherwise.
pub const MAX_MILESTONES: u32 = 20;

/// How long a text may be, in bytes.
pub const MAX_STRING_LEN: u32 = 256;

/// How many signers an escrow may name.
pub const MAX_BUYER_SIGNERS: u32 = 10;

/// The amount from which an escrow needs more than one approver, unless the
/// admin says otherwise.
pub const DEFAULT_HIGH_VALUE_THRESHOLD: i128 = 1_000_000_000_000;

/// The longest timelock, in seconds: thirty days.
pub const MAX_TIMELOCK_DURATION_SECONDS: u64 = 2_592_000;

/// How far a deadline is pushed out when work comes in shortly before it.
pub const AUTO_DEADLINE_EXTENSION_SECONDS: u64 = 604_800;

/// The smallest amount of an escrow.
pub const MIN_ESCROW_AMOUNT: i128 = 1;

/// The score that an arbiter with a record needs, unless the admin says
/// otherwise.
pub const MIN_ARBITER_REPUTATION_SCORE: u64 = 100;

/// The amount from which a dispute may go to governance.
pub const HIGH_VALUE_THRESHOLD: i128 = 10_000_000_000;

/// The code version of a fresh deployment.
pub const INITIAL_CONTRACT_VERSION: u32 = 1;

/// How many ledgers a dispute stays open at least.
pub const DISPUTE_COOLDOWN_LEDGERS: u32 = 100;

/// After how many ledgers a dispute counts as stale.
pub const DISPUTE_MAX_LEDGERS: u32 = 500;

/// The largest oracle staleness threshold, in seconds.
pub const MAX_ORACLE_STALE_SECONDS: u64 = 86_400;

/// How many ids a page holds at most.
pub const MAX_PAGE: u32 = 50;

} // verus!
