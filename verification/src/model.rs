//! The DAO as a state machine over mathematical values.

use vstd::prelude::*;
use crate::error::DaoError;
use crate::identity::AccountId;
use crate::proposal::BasicProposal;
use crate::registry::tally_of;
use crate::store::slot_at;

verus! {

/// The state of a DAO as a mathematical value, and its operations as
/// functions from a state and a caller to the next state or a refusal.
#[verifier::ext_equal]
pub struct DaoState {
    /// The name the DAO was created with.
    pub name: Seq<char>,
    /// The registered voters, each with the number of votes it has cast.
    pub voters: Map<AccountId, u32>,
    /// The proposal slots in index order; `None` marks a cleared slot.
    pub proposals: Seq<Option<BasicProposal>>,
}

impl DaoState {
    /// A freshly created DAO: no voters, no proposals.
    pub open spec fn init(name: Seq<char>) -> DaoState {
        DaoState { name, voters: Map::empty(), proposals: Seq::empty() }
    }

    /// Whether `id` is a registered voter.
    pub open spec fn has_voter(self, id: AccountId) -> bool {
        self.voters.contains_key(id)
    }

    /// The number of votes `id` has cast; 0 for an unregistered identity.
    pub open spec fn vote_count(self, id: AccountId) -> u32 {
        tally_of(self.voters, id)
    }

    /// The number of proposal slots, cleared ones included.
    pub open spec fn length(self) -> nat {
        self.proposals.len()
    }

    /// The proposal at `index`, if the slot exists and has not been cleared.
    pub open spec fn get_proposal(self, index: u32) -> Option<BasicProposal> {
        slot_at(self.proposals, index as int)
    }

    /// `caller` joins with a tally of 0; refused if it is a voter already.
    pub open spec fn register_voter(self, caller: AccountId) -> Result<DaoState, DaoError> {
        if self.has_voter(caller) {
            Err(DaoError::VoterAlreadyRegistered)
        } else {
            Ok(DaoState { voters: self.voters.insert(caller, 0), ..self })
        }
    }

    /// `caller` leaves and its tally is dropped; refused if it is no voter.
    pub open spec fn deregister_voter(self, caller: AccountId) -> Result<DaoState, DaoError> {
        if !self.has_voter(caller) {
            Err(DaoError::VoterNotRegistered)
        } else {
            Ok(DaoState { voters: self.voters.remove(caller), ..self })
        }
    }

    /// A proposal without votes is appended; refused if `caller` is no voter.
    pub open spec fn create_proposal(self, caller: AccountId) -> Result<DaoState, DaoError> {
        if !self.has_voter(caller) {
            Err(DaoError::VoterNotRegistered)
        } else {
            Ok(
                DaoState {
                    proposals: self.proposals.push(Some(BasicProposal { vote_count: 0 })),
                    ..self
                },
            )
        }
    }

    /// The slot at `index` is cleared; refused if `caller` is no voter, and
    /// otherwise if no proposal exists at `index`.
    pub open spec fn remove_proposal(self, caller: AccountId, index: u32) -> Result<
        DaoState,
        DaoError,
    > {
        if !self.has_voter(caller) {
            Err(DaoError::VoterNotRegistered)
        } else if self.get_proposal(index) is None {
            Err(DaoError::ProposalDoesNotExist)
        } else {
            Ok(DaoState { proposals: self.proposals.update(index as int, None), ..self })
        }
    }

    /// The proposal at `index` and the tally of `caller` each go up by one;
    /// refused if `caller` is no voter, and otherwise if no proposal exists
    /// at `index`.
    pub open spec fn vote(self, caller: AccountId, index: u32) -> Result<DaoState, DaoError> {
        if !self.has_voter(caller) {
            Err(DaoError::VoterNotRegistered)
        } else {
            match self.get_proposal(index) {
                None => Err(DaoError::ProposalDoesNotExist),
                Some(proposal) => Ok(
                    DaoState {
                        voters: self.voters.insert(caller, (self.voters[caller] + 1) as u32),
                        proposals: self.proposals.update(
                            index as int,
                            Some(BasicProposal { vote_count: (proposal.vote_count + 1) as u32 }),
                        ),
                        ..self
                    },
                ),
            }
        }
    }

    /// Whether `create_proposal` by `caller` stays within the `u32` index space.
    pub open spec fn create_fits(self, caller: AccountId) -> bool {
        self.has_voter(caller) ==> self.length() < u32::MAX
    }

    /// Whether `vote` by `caller` at `index` keeps both counters within `u32`.
    pub open spec fn vote_fits(self, caller: AccountId, index: u32) -> bool {
        self.has_voter(caller) ==> (self.get_proposal(index) matches Some(proposal)
            ==> proposal.vote_count < u32::MAX && self.voters[caller] < u32::MAX)
    }

    /// The state that an operation leaves: the next state if it was
    /// carried out, the state before it if it was refused.
    pub open spec fn after(self, outcome: Result<DaoState, DaoError>) -> DaoState {
        match outcome {
            Ok(next) => next,
            Err(_) => self,
        }
    }
}

/// What the caller of an operation is told about `outcome`.
pub open spec fn reply(outcome: Result<DaoState, DaoError>) -> Result<(), DaoError> {
    match outcome {
        Ok(_) => Ok(()),
        Err(e) => Err(e),
    }
}

} // verus!
