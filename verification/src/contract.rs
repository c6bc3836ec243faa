use vstd::prelude::*;

verus! {

/// Milestone-based escrow. The requests are spread over the modules of this
/// crate by what they are about.
pub struct EscrowContract;

} // verus!
