//! The refusals of the governance operations.

use vstd::prelude::*;

verus! {

/// Why a governance operation was refused.
#[derive(Clone, Copy, Debug, PartialEq, Eq, Structural)]
pub enum DaoError {
    /// The caller tried to register but is already a voter.
    VoterAlreadyRegistered,
    /// A membership-gated operation was attempted by a non-member.
    VoterNotRegistered,
    /// The index is out of range or points at a cleared slot.
    ProposalDoesNotExist,
}

} // verus!
