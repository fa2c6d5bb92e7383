//! Laws of the DAO: what holds of its operations in every state.

use vstd::prelude::*;
use crate::error::DaoError;
use crate::identity::AccountId;
use crate::model::{reply, DaoState};
use crate::proposal::BasicProposal;

verus! {

/// The state after `caller` has called `vote` for the proposal at `index`
/// `times` times in a row, starting from `state`.
pub open spec fn vote_repeatedly(
    state: DaoState,
    caller: AccountId,
    index: u32,
    times: nat,
) -> DaoState
    decreases times,
{
    if times == 0 {
        state
    } else {
        let before = vote_repeatedly(state, caller, index, (times - 1) as nat);
        before.after(before.vote(caller, index))
    }
}

/// An identity that is not yet a voter can register once: the first
/// registration is carried out, the second is refused as a repetition.
pub proof fn law_second_registration_refused(state: DaoState, x: AccountId)
    requires
        !state.has_voter(x),
    ensures
        reply(state.register_voter(x)) == Ok::<(), DaoError>(()),
        reply(state.after(state.register_voter(x)).register_voter(x)) == Err::<(), DaoError>(
            DaoError::VoterAlreadyRegistered,
        ),
{
}

/// After `x` has asked to register and then to deregister, `x` is no voter
/// and a second deregistration is refused. If `x` was no voter to begin with,
/// the two calls together change nothing.
pub proof fn law_register_deregister_round_trip(state: DaoState, x: AccountId)
    ensures
        ({
            let joined = state.after(state.register_voter(x));
            let left = joined.after(joined.deregister_voter(x));
            &&& reply(joined.deregister_voter(x)) == Ok::<(), DaoError>(())
            &&& !left.has_voter(x)
            &&& reply(left.deregister_voter(x)) == Err::<(), DaoError>(
                DaoError::VoterNotRegistered,
            )
            &&& !state.has_voter(x) ==> left == state
        }),
{
    let joined = state.after(state.register_voter(x));
    let left = joined.after(joined.deregister_voter(x));
    if !state.has_voter(x) {
        assert(left.voters =~= state.voters);
        assert(left =~= state);
    }
}

/// A voter that has just been registered has cast no votes.
pub proof fn law_new_voter_has_no_votes(state: DaoState, x: AccountId)
    ensures
        state.register_voter(x) matches Ok(joined) ==> joined.has_voter(x) && joined.vote_count(x)
            == 0,
{
}

/// Only voters create proposals: the call of anyone else is refused and
/// leaves the DAO, and so the number of proposal slots, as it was.
pub proof fn law_create_needs_membership(state: DaoState, x: AccountId)
    requires
        !state.has_voter(x),
    ensures
        reply(state.create_proposal(x)) == Err::<(), DaoError>(DaoError::VoterNotRegistered),
        state.after(state.create_proposal(x)) == state,
        state.after(state.create_proposal(x)).length() == state.length(),
{
}

/// When a voter votes `times` times for an existing proposal, every one of
/// the calls is carried out, the proposal's count goes up by exactly
/// `times`, and so does the voter's tally; nothing else changes. Both
/// counters must have room for `times` more votes.
pub proof fn law_votes_add_up(state: DaoState, voter: AccountId, index: u32, times: nat)
    requires
        state.has_voter(voter),
        state.get_proposal(index) is Some,
        state.get_proposal(index).unwrap().vote_count + times <= u32::MAX,
        state.vote_count(voter) + times <= u32::MAX,
    ensures
        ({
            let end = vote_repeatedly(state, voter, index, times);
            &&& end.get_proposal(index) == Some(
                BasicProposal {
                    vote_count: (state.get_proposal(index).unwrap().vote_count + times) as u32,
                },
            )
            &&& end.vote_count(voter) == state.vote_count(voter) + times
            &&& end.name == state.name
            &&& end.length() == state.length()
            &&& end.voters.dom() == state.voters.dom()
            &&& forall|other: AccountId| other != voter ==> end.vote_count(other) == state.vote_count(other)
            &&& forall|j: u32| j != index ==> end.get_proposal(j) == state.get_proposal(j)
        }),
        forall|k: nat|
            k < times ==> {
                let reached = #[trigger] vote_repeatedly(state, voter, index, k);
                reached.vote_fits(voter, index) && reply(reached.vote(voter, index)) == Ok::<
                    (),
                    DaoError,
                >(())
            },
    decreases times,
{
    if times > 0 {
        let fewer = (times - 1) as nat;
        law_votes_add_up(state, voter, index, fewer);
        let before = vote_repeatedly(state, voter, index, fewer);
        let end = vote_repeatedly(state, voter, index, times);
        assert(end == before.after(before.vote(voter, index)));
        assert(before.vote_fits(voter, index));
        assert(end.voters.dom() =~= state.voters.dom());
        assert forall|k: nat| k < times implies {
            let reached = #[trigger] vote_repeatedly(state, voter, index, k);
            reached.vote_fits(voter, index) && reply(reached.vote(voter, index)) == Ok::<
                (),
                DaoError,
            >(())
        } by {
            if k < fewer {
            } else {
                assert(k == fewer);
            }
        }
    }
}

/// Once a voter has called `remove_proposal` for `index`, no proposal is
/// found there, a vote for it by any voter is refused as
/// `ProposalDoesNotExist`, and the number of slots is what it was.
pub proof fn law_removed_proposal_is_gone(
    state: DaoState,
    caller: AccountId,
    index: u32,
    voter: AccountId,
)
    requires
        state.has_voter(caller),
        state.has_voter(voter),
    ensures
        ({
            let cleared = state.after(state.remove_proposal(caller, index));
            &&& cleared.get_proposal(index) == None::<BasicProposal>
            &&& reply(cleared.vote(voter, index)) == Err::<(), DaoError>(
                DaoError::ProposalDoesNotExist,
            )
            &&& cleared.after(cleared.vote(voter, index)) == cleared
            &&& cleared.length() == state.length()
        }),
{
}

/// For a voter, an index at or past the number of slots names no proposal:
/// both `vote` and `remove_proposal` are refused as `ProposalDoesNotExist`.
pub proof fn law_out_of_range_refused(state: DaoState, caller: AccountId, index: u32)
    requires
        state.has_voter(caller),
        index >= state.length(),
    ensures
        reply(state.vote(caller, index)) == Err::<(), DaoError>(DaoError::ProposalDoesNotExist),
        reply(state.remove_proposal(caller, index)) == Err::<(), DaoError>(
            DaoError::ProposalDoesNotExist,
        ),
{
}

} // verus!
