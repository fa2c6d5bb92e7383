//! The voting engine: the operations of a DAO on its registry and its store.

use vstd::prelude::*;
use crate::error::DaoError;
use crate::identity::AccountId;
use crate::model::{reply, DaoState};
use crate::proposal::BasicProposal;
use crate::registry::VoterRegistry;
use crate::store::ProposalStore;

verus! {

/// A DAO: its name, its voters and its proposals.
///
/// Every operation that acts for someone takes the caller's identity as an
/// argument. An operation that is refused leaves the DAO as it was.
pub struct Dao {
    name: String,
    voters: VoterRegistry,
    proposals: ProposalStore,
}

impl View for Dao {
    type V = DaoState;

    /// The state of the DAO as a mathematical value.
    closed spec fn view(&self) -> DaoState {
        DaoState { name: self.name@, voters: self.voters@, proposals: self.proposals@ }
    }
}

impl Dao {
    /// The invariant of the DAO: that of its registry and of its store.
    pub closed spec fn wf(&self) -> bool {
        self.voters.wf() && self.proposals.wf()
    }

    /// Creates a DAO called `name`, without voters or proposals.
    pub fn new(name: String) -> (dao: Dao)
        ensures
            dao.wf(),
            dao@ == DaoState::init(name@),
    {
        Dao { name, voters: VoterRegistry::new(), proposals: ProposalStore::new() }
    }

    /// Creates a DAO with the empty name.
    pub fn default() -> (dao: Dao)
        ensures
            dao.wf(),
            dao@ == DaoState::init(Seq::<char>::empty()),
    {
        Dao::new(String::new())
    }

    /// Puts a DAO together from its name, its voters and its proposals.
    pub fn from_parts(name: String, voters: VoterRegistry, proposals: ProposalStore) -> (dao: Dao)
        requires
            voters.wf(),
            proposals.wf(),
        ensures
            dao.wf(),
            dao@ == (DaoState { name: name@, voters: voters@, proposals: proposals@ }),
    {
        Dao { name, voters, proposals }
    }

    /// The registry of voters.
    pub fn voters(&self) -> (registry: &VoterRegistry)
        requires
            self.wf(),
        ensures
            registry.wf(),
            registry@ == self@.voters,
    {
        &self.voters
    }

    /// The store of proposals.
    pub fn proposals(&self) -> (store: &ProposalStore)
        requires
            self.wf(),
        ensures
            store.wf(),
            store@ == self@.proposals,
    {
        &self.proposals
    }

    /// The name the DAO was created with.
    pub fn get_name(&self) -> (name: String)
        ensures
            name@ == self@.name,
    {
        self.name.clone()
    }

    /// Registers `caller` as a voter with a tally of 0.
    pub fn register_voter(&mut self, caller: AccountId) -> (r: Result<(), DaoError>)
        requires
            old(self).wf(),
        ensures
            final(self).wf(),
            r == reply(old(self)@.register_voter(caller)),
            final(self)@ == old(self)@.after(old(self)@.register_voter(caller)),
    {
        self.voters.register(caller)
    }

    /// Removes `caller` from the voters.
    pub fn deregister_voter(&mut self, caller: AccountId) -> (r: Result<(), DaoError>)
        requires
            old(self).wf(),
        ensures
            final(self).wf(),
            r == reply(old(self)@.deregister_voter(caller)),
            final(self)@ == old(self)@.after(old(self)@.deregister_voter(caller)),
    {
        self.voters.deregister(&caller)
    }

    /// Whether `voter` is registered.
    pub fn has_voter(&self, voter: AccountId) -> (r: bool)
        requires
            self.wf(),
        ensures
            r == self@.has_voter(voter),
    {
        self.voters.contains(&voter)
    }

    /// Appends a proposal without votes, on behalf of the voter `caller`.
    pub fn create_proposal(&mut self, caller: AccountId) -> (r: Result<(), DaoError>)
        requires
            old(self).wf(),
            old(self)@.create_fits(caller),
        ensures
            final(self).wf(),
            r == reply(old(self)@.create_proposal(caller)),
            final(self)@ == old(self)@.after(old(self)@.create_proposal(caller)),
            !old(self)@.has_voter(caller) ==> r == Err::<(), DaoError>(
                DaoError::VoterNotRegistered,
            ) && final(self)@.length() == old(self)@.length(),
    {
        if !self.voters.contains(&caller) {
            return Err(DaoError::VoterNotRegistered);
        }
        self.proposals.append(BasicProposal { vote_count: 0 });
        Ok(())
    }

    /// Clears the proposal at `proposal_id`, on behalf of the voter `caller`.
    /// The slot keeps its index and the length stays as it is.
    pub fn remove_proposal(&mut self, caller: AccountId, proposal_id: u32) -> (r: Result<
        (),
        DaoError,
    >)
        requires
            old(self).wf(),
        ensures
            final(self).wf(),
            r == reply(old(self)@.remove_proposal(caller, proposal_id)),
            final(self)@ == old(self)@.after(old(self)@.remove_proposal(caller, proposal_id)),
            final(self)@.length() == old(self)@.length(),
            r is Ok ==> final(self)@.get_proposal(proposal_id) is None,
            old(self)@.has_voter(caller) && proposal_id >= old(self)@.length() ==> r == Err::<
                (),
                DaoError,
            >(DaoError::ProposalDoesNotExist),
    {
        if !self.voters.contains(&caller) {
            return Err(DaoError::VoterNotRegistered);
        }
        if self.proposals.length() <= proposal_id {
            return Err(DaoError::ProposalDoesNotExist);
        }
        if self.proposals.get(proposal_id).is_none() {
            return Err(DaoError::ProposalDoesNotExist);
        }
        self.proposals.clear(proposal_id);
        Ok(())
    }

    /// The proposal at `proposal_id`, or `None` if there is none or it has
    /// been cleared.
    pub fn get_proposal(&self, proposal_id: u32) -> (r: Option<BasicProposal>)
        requires
            self.wf(),
        ensures
            r == self@.get_proposal(proposal_id),
    {
        self.proposals.get(proposal_id)
    }

    /// Casts one vote of `caller` for the proposal at `proposal_id`: the
    /// proposal's count and the caller's tally each go up by one. Nothing
    /// keeps a voter from voting for the same proposal again.
    pub fn vote(&mut self, caller: AccountId, proposal_id: u32) -> (r: Result<(), DaoError>)
        requires
            old(self).wf(),
            old(self)@.vote_fits(caller, proposal_id),
        ensures
            final(self).wf(),
            r == reply(old(self)@.vote(caller, proposal_id)),
            final(self)@ == old(self)@.after(old(self)@.vote(caller, proposal_id)),
            old(self)@.has_voter(caller) && proposal_id >= old(self)@.length() ==> r == Err::<
                (),
                DaoError,
            >(DaoError::ProposalDoesNotExist),
    {
        if !self.voters.contains(&caller) {
            return Err(DaoError::VoterNotRegistered);
        }
        if self.proposals.length() <= proposal_id {
            return Err(DaoError::ProposalDoesNotExist);
        }
        match self.proposals.get(proposal_id) {
            None => Err(DaoError::ProposalDoesNotExist),
            Some(proposal) => {
                let counted = BasicProposal { vote_count: proposal.vote_count + 1 };
                self.proposals.set(proposal_id, counted);
                self.voters.increment(&caller);
                Ok(())
            },
        }
    }

    /// The number of votes `voter` has cast, or 0 if it is not registered.
    pub fn vote_count(&self, voter: AccountId) -> (n: u32)
        requires
            self.wf(),
        ensures
            n == self@.vote_count(voter),
    {
        self.voters.tally(&voter)
    }
}

} // verus!
