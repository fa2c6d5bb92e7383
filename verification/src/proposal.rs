//! Proposals.

use vstd::prelude::*;

verus! {

/// A proposal that voters can vote on.
#[derive(Clone, Copy, Debug, PartialEq, Eq, Structural)]
pub struct BasicProposal {
    /// How many votes the proposal has received.
    pub vote_count: u32,
}

} // verus!
