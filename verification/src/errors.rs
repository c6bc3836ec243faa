use vstd::prelude::*;

verus! {

/// Why a request was refused. A refused request leaves the contract exactly as
/// it was.
#[derive(Clone, Copy, Debug, PartialEq, Eq, Structural)]
pub enum EscrowError {
    /// The contract is already initialized.
    E1,
    /// The contract is not initialized.
    E2,
    /// The caller has no part in this request.
    E3,
    /// Only the admin may do this.
    E4,
    /// Only the client may do this.
    E5,
    /// There is no such live escrow, or no such template.
    E8,
    /// The escrow is not active.
    E9,
    /// The escrow is not in dispute, or its dispute has no recorded start.
    E10,
    /// There is no such milestone.
    E13,
    /// The milestone is not in the state that the request needs.
    E14,
    /// The milestones would exceed the escrow's total amount.
    E15,
    /// The milestone count would pass its limit.
    E16,
    /// A milestone amount is not positive, or a limit is out of its range.
    E17,
    /// An argument is out of its range.
    E19,
    /// An amount or a counter would not fit its type.
    E20,
    /// A guarded operation is already running.
    E22,
    /// The dispute timeout does not apply, or has not passed.
    E23,
    /// The meta-transaction is past its deadline.
    E26,
    /// The lock time has not passed.
    E28,
    /// The lock time is not in the future.
    E30,
    /// The contract is paused.
    E31,
    /// There is no cancellation request.
    E32,
    /// A cancellation request exists already.
    E33,
    /// The cancellation is disputed already.
    E34,
    /// The dispute period of the cancellation has not passed.
    E35,
    /// The dispute period of the cancellation has passed.
    E36,
    /// The cancellation is disputed and cannot be executed.
    E37,
    /// There is no slash to decide on.
    E38,
    /// The slash is disputed.
    E39,
    /// The dispute period of the slash has not passed, or has passed already.
    E40,
    /// The escrow has a slash record already.
    E41,
    /// The escrow has no recurring schedule.
    E43,
    /// The schedule cannot be met, or the milestone is not approved.
    E44,
    /// No payment is due.
    E45,
    /// The schedule is paused.
    E46,
    /// The schedule is cancelled.
    E47,
    /// The timelock is out of its range, or running already.
    E51,
    /// The timelock has not expired.
    E53,
    /// The oracle key is not configured.
    E54,
    /// The title is too long or too short.
    E55,
    /// The grace period of the dispute has not passed.
    E56,
    /// The payload is signed with another key.
    E57,
    /// The payload has expired.
    E58,
    /// The shares of the payload do not make a whole.
    E59,
    /// The dispute has no recorded start time.
    E60,
    /// The escrow is frozen.
    E61,
    /// The admin signatures do not reach the threshold.
    E62,
    /// The admin threshold is out of its range.
    E63,
    /// The dispute is still cooling down.
    E64,
    /// The evidence hash or its description is empty.
    E80,
    /// The description of the evidence is too long.
    E81,
    /// Evidence is taken only while the escrow is in dispute.
    E82,
    /// Only a party to the escrow may add evidence.
    E83,
    /// The amount is below the minimum.
    E84,
    /// An amount or a tolerance is above its maximum.
    E85,
    /// The price moved further than the slippage tolerance.
    E86,
    /// Only the admin may upgrade the contract.
    E87,
    /// The arbiter's fee is more than the whole.
    E88,
    /// The fees are more than the escrow holds.
    E89,
    /// The arbiter is not on the allowlist.
    E90,
    /// The arbiter is on the allowlist already.
    E91,
    /// The arbiter to remove is not on the allowlist.
    E92,
    /// The client has accepted the terms already.
    ClientAlreadyAcceptedTerms,
    /// The client has not accepted the terms.
    ClientHasNotAcceptedTerms,
    /// No exchange is configured.
    DexNotConfigured,
    /// The brief hash is all zeros.
    InvalidBriefHash,
    /// The swap's amounts or tokens are out of range.
    InvalidSwapParameters,
    /// The signer has approved this milestone already.
    MultisigDuplicateApproval,
    /// The multisig policy cannot work.
    MultisigInvalidConfig,
    /// The caller is not one of the approvers.
    MultisigNotApprover,
    /// An escrow of this amount needs more than one approver.
    MultisigRequiredForHighValue,
    /// The policy names too many signers.
    MultisigTooManySigners,
    /// The terms hash is all zeros, or no terms are attached.
    TermsHashEmpty,
    /// A release time is set already.
    TimelockAlreadySet,
    /// The release time has not come.
    TimelockNotExpired,
    /// No release time is set.
    TimelockNotSet,
    /// The release time is not in the future.
    TimelockReleasetimeInvalid,
}

} // verus!
