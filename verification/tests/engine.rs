use minidao::dao::Dao;
use minidao::error::DaoError;
use minidao::identity::AccountId;
use minidao::proposal::BasicProposal;
use minidao::registry::{VoterEntry, VoterRegistry};
use minidao::store::ProposalStore;

fn alice() -> AccountId {
    AccountId([0x01; 32])
}

fn bob() -> AccountId {
    AccountId([0x02; 32])
}

#[test]
fn test_voter_registration() {
    let mut dao = Dao::new(String::from("any name"));
    assert_eq!(dao.register_voter(alice()), Ok(()));

    assert_eq!(dao.has_voter(alice()), true);
}

#[test]
fn test_proposal_management() {
    let mut dao = Dao::new(String::from("any name"));
    assert_eq!(dao.register_voter(alice()), Ok(()));

    assert_eq!(dao.has_voter(alice()), true);

    assert_eq!(dao.create_proposal(alice()), Ok(()));

    assert_eq!(dao.get_proposal(0).unwrap().vote_count, 0);
}

#[test]
fn test_vote() {
    let mut dao = Dao::new(String::from("any name"));
    assert_eq!(dao.register_voter(alice()), Ok(()));

    assert_eq!(dao.has_voter(alice()), true);

    assert_eq!(dao.create_proposal(alice()), Ok(()));

    assert_eq!(dao.vote(alice(), 0), Ok(()));

    assert_eq!(dao.vote_count(alice()), 1);
    assert_eq!(dao.get_proposal(0).unwrap().vote_count, 1);
}

#[test]
fn new_dao_is_empty_and_keeps_its_name() {
    let dao = Dao::new(String::from("test"));
    assert_eq!(dao.get_name(), "test");
    assert_eq!(dao.has_voter(alice()), false);
    assert_eq!(dao.vote_count(alice()), 0);
    assert_eq!(dao.get_proposal(0), None);
}

#[test]
fn default_dao_has_the_empty_name() {
    let dao = Dao::default();
    assert_eq!(dao.get_name(), "");
    assert_eq!(dao.has_voter(alice()), false);
    assert_eq!(dao.get_proposal(0), None);
}

#[test]
fn get_name_returns_a_copy() {
    let dao = Dao::new(String::from("council"));
    let mut name = dao.get_name();
    name.push('!');
    assert_eq!(name, "council!");
    assert_eq!(dao.get_name(), "council");
}

#[test]
fn full_life_of_a_proposal() {
    let mut dao = Dao::new(String::from("test"));
    assert_eq!(dao.register_voter(alice()), Ok(()));
    assert_eq!(dao.create_proposal(alice()), Ok(()));
    assert_eq!(dao.get_proposal(0), Some(BasicProposal { vote_count: 0 }));
    assert_eq!(dao.vote(alice(), 0), Ok(()));
    assert_eq!(dao.get_proposal(0).unwrap().vote_count, 1);
    assert_eq!(dao.vote_count(alice()), 1);
    assert_eq!(dao.remove_proposal(alice(), 0), Ok(()));
    assert_eq!(dao.get_proposal(0), None);
    assert_eq!(dao.vote(alice(), 0), Err(DaoError::ProposalDoesNotExist));
}

#[test]
fn registering_twice_is_refused() {
    let mut dao = Dao::new(String::from("test"));
    assert_eq!(dao.register_voter(alice()), Ok(()));
    assert_eq!(dao.register_voter(alice()), Err(DaoError::VoterAlreadyRegistered));
    assert_eq!(dao.has_voter(alice()), true);
    assert_eq!(dao.register_voter(bob()), Ok(()));
}

#[test]
fn refused_registration_keeps_the_tally() {
    let mut dao = Dao::new(String::from("test"));
    assert_eq!(dao.register_voter(alice()), Ok(()));
    assert_eq!(dao.create_proposal(alice()), Ok(()));
    assert_eq!(dao.vote(alice(), 0), Ok(()));
    assert_eq!(dao.register_voter(alice()), Err(DaoError::VoterAlreadyRegistered));
    assert_eq!(dao.vote_count(alice()), 1);
}

#[test]
fn register_then_deregister() {
    let mut dao = Dao::new(String::from("test"));
    assert_eq!(dao.register_voter(alice()), Ok(()));
    assert_eq!(dao.deregister_voter(alice()), Ok(()));
    assert_eq!(dao.has_voter(alice()), false);
    assert_eq!(dao.deregister_voter(alice()), Err(DaoError::VoterNotRegistered));
}

#[test]
fn deregistering_a_stranger_is_refused() {
    let mut dao = Dao::new(String::from("test"));
    assert_eq!(dao.register_voter(alice()), Ok(()));
    assert_eq!(dao.deregister_voter(bob()), Err(DaoError::VoterNotRegistered));
    assert_eq!(dao.has_voter(alice()), true);
}

#[test]
fn deregistering_leaves_the_others() {
    let mut dao = Dao::new(String::from("test"));
    let carol = AccountId([0x03; 32]);
    assert_eq!(dao.register_voter(alice()), Ok(()));
    assert_eq!(dao.register_voter(bob()), Ok(()));
    assert_eq!(dao.register_voter(carol), Ok(()));
    assert_eq!(dao.create_proposal(bob()), Ok(()));
    assert_eq!(dao.vote(bob(), 0), Ok(()));
    assert_eq!(dao.vote(carol, 0), Ok(()));
    assert_eq!(dao.vote(carol, 0), Ok(()));
    assert_eq!(dao.deregister_voter(alice()), Ok(()));
    assert_eq!(dao.has_voter(alice()), false);
    assert_eq!(dao.has_voter(bob()), true);
    assert_eq!(dao.has_voter(carol), true);
    assert_eq!(dao.vote_count(bob()), 1);
    assert_eq!(dao.vote_count(carol), 2);
    assert_eq!(dao.deregister_voter(bob()), Ok(()));
    assert_eq!(dao.has_voter(carol), true);
    assert_eq!(dao.vote_count(carol), 2);
    assert_eq!(dao.vote_count(bob()), 0);
}

#[test]
fn fresh_voter_has_no_votes() {
    let mut dao = Dao::new(String::from("test"));
    assert_eq!(dao.register_voter(alice()), Ok(()));
    assert_eq!(dao.vote_count(alice()), 0);
}

#[test]
fn rejoining_resets_the_tally() {
    let mut dao = Dao::new(String::from("test"));
    assert_eq!(dao.register_voter(alice()), Ok(()));
    assert_eq!(dao.create_proposal(alice()), Ok(()));
    assert_eq!(dao.vote(alice(), 0), Ok(()));
    assert_eq!(dao.vote(alice(), 0), Ok(()));
    assert_eq!(dao.vote_count(alice()), 2);
    assert_eq!(dao.deregister_voter(alice()), Ok(()));
    assert_eq!(dao.vote_count(alice()), 0);
    assert_eq!(dao.register_voter(alice()), Ok(()));
    assert_eq!(dao.vote_count(alice()), 0);
    assert_eq!(dao.get_proposal(0), Some(BasicProposal { vote_count: 2 }));
}

#[test]
fn stranger_cannot_create_a_proposal() {
    let mut dao = Dao::new(String::from("test"));
    assert_eq!(dao.create_proposal(alice()), Err(DaoError::VoterNotRegistered));
    assert_eq!(dao.get_proposal(0), None);
    assert_eq!(dao.register_voter(bob()), Ok(()));
    assert_eq!(dao.create_proposal(bob()), Ok(()));
    assert_eq!(dao.create_proposal(alice()), Err(DaoError::VoterNotRegistered));
    assert_eq!(dao.get_proposal(1), None);
    assert_eq!(dao.create_proposal(bob()), Ok(()));
    assert_eq!(dao.get_proposal(1), Some(BasicProposal { vote_count: 0 }));
}

#[test]
fn proposals_get_consecutive_indices() {
    let mut dao = Dao::new(String::from("test"));
    assert_eq!(dao.register_voter(alice()), Ok(()));
    for _ in 0..3 {
        assert_eq!(dao.create_proposal(alice()), Ok(()));
    }
    assert_eq!(dao.vote(alice(), 1), Ok(()));
    assert_eq!(dao.get_proposal(0), Some(BasicProposal { vote_count: 0 }));
    assert_eq!(dao.get_proposal(1), Some(BasicProposal { vote_count: 1 }));
    assert_eq!(dao.get_proposal(2), Some(BasicProposal { vote_count: 0 }));
    assert_eq!(dao.get_proposal(3), None);
}

#[test]
fn votes_add_up() {
    let mut dao = Dao::new(String::from("test"));
    assert_eq!(dao.register_voter(alice()), Ok(()));
    assert_eq!(dao.register_voter(bob()), Ok(()));
    assert_eq!(dao.create_proposal(alice()), Ok(()));
    assert_eq!(dao.create_proposal(alice()), Ok(()));
    assert_eq!(dao.vote(bob(), 1), Ok(()));
    for _ in 0..5 {
        assert_eq!(dao.vote(alice(), 1), Ok(()));
    }
    assert_eq!(dao.get_proposal(1), Some(BasicProposal { vote_count: 6 }));
    assert_eq!(dao.vote_count(alice()), 5);
    assert_eq!(dao.vote_count(bob()), 1);
    assert_eq!(dao.get_proposal(0), Some(BasicProposal { vote_count: 0 }));
}

#[test]
fn tally_counts_votes_over_all_proposals() {
    let mut dao = Dao::new(String::from("test"));
    assert_eq!(dao.register_voter(alice()), Ok(()));
    assert_eq!(dao.create_proposal(alice()), Ok(()));
    assert_eq!(dao.create_proposal(alice()), Ok(()));
    assert_eq!(dao.vote(alice(), 0), Ok(()));
    assert_eq!(dao.vote(alice(), 1), Ok(()));
    assert_eq!(dao.vote(alice(), 1), Ok(()));
    assert_eq!(dao.vote_count(alice()), 3);
    assert_eq!(dao.get_proposal(0).unwrap().vote_count, 1);
    assert_eq!(dao.get_proposal(1).unwrap().vote_count, 2);
}

#[test]
fn stranger_cannot_vote() {
    let mut dao = Dao::new(String::from("test"));
    assert_eq!(dao.register_voter(alice()), Ok(()));
    assert_eq!(dao.create_proposal(alice()), Ok(()));
    assert_eq!(dao.vote(bob(), 0), Err(DaoError::VoterNotRegistered));
    assert_eq!(dao.get_proposal(0), Some(BasicProposal { vote_count: 0 }));
    assert_eq!(dao.vote_count(bob()), 0);
}

#[test]
fn membership_is_checked_before_the_proposal() {
    let mut dao = Dao::new(String::from("test"));
    assert_eq!(dao.vote(bob(), 7), Err(DaoError::VoterNotRegistered));
    assert_eq!(dao.remove_proposal(bob(), 7), Err(DaoError::VoterNotRegistered));
}

#[test]
fn failed_vote_leaves_the_tally() {
    let mut dao = Dao::new(String::from("test"));
    assert_eq!(dao.register_voter(alice()), Ok(()));
    assert_eq!(dao.create_proposal(alice()), Ok(()));
    assert_eq!(dao.vote(alice(), 0), Ok(()));
    assert_eq!(dao.vote(alice(), 1), Err(DaoError::ProposalDoesNotExist));
    assert_eq!(dao.vote_count(alice()), 1);
    assert_eq!(dao.get_proposal(0), Some(BasicProposal { vote_count: 1 }));
}

#[test]
fn removed_proposal_is_gone_but_keeps_its_slot() {
    let mut dao = Dao::new(String::from("test"));
    assert_eq!(dao.register_voter(alice()), Ok(()));
    assert_eq!(dao.create_proposal(alice()), Ok(()));
    assert_eq!(dao.create_proposal(alice()), Ok(()));
    assert_eq!(dao.vote(alice(), 1), Ok(()));
    assert_eq!(dao.remove_proposal(alice(), 0), Ok(()));
    assert_eq!(dao.get_proposal(0), None);
    assert_eq!(dao.vote(alice(), 0), Err(DaoError::ProposalDoesNotExist));
    assert_eq!(dao.get_proposal(1), Some(BasicProposal { vote_count: 1 }));
    assert_eq!(dao.create_proposal(alice()), Ok(()));
    assert_eq!(dao.get_proposal(0), None);
    assert_eq!(dao.get_proposal(2), Some(BasicProposal { vote_count: 0 }));
    assert_eq!(dao.get_proposal(3), None);
}

#[test]
fn removing_twice_is_refused() {
    let mut dao = Dao::new(String::from("test"));
    assert_eq!(dao.register_voter(alice()), Ok(()));
    assert_eq!(dao.create_proposal(alice()), Ok(()));
    assert_eq!(dao.remove_proposal(alice(), 0), Ok(()));
    assert_eq!(dao.remove_proposal(alice(), 0), Err(DaoError::ProposalDoesNotExist));
}

#[test]
fn stranger_cannot_remove_a_proposal() {
    let mut dao = Dao::new(String::from("test"));
    assert_eq!(dao.register_voter(alice()), Ok(()));
    assert_eq!(dao.create_proposal(alice()), Ok(()));
    assert_eq!(dao.remove_proposal(bob(), 0), Err(DaoError::VoterNotRegistered));
    assert_eq!(dao.get_proposal(0), Some(BasicProposal { vote_count: 0 }));
}

#[test]
fn index_past_the_end_is_refused() {
    let mut dao = Dao::new(String::from("test"));
    assert_eq!(dao.register_voter(alice()), Ok(()));
    assert_eq!(dao.vote(alice(), 0), Err(DaoError::ProposalDoesNotExist));
    assert_eq!(dao.remove_proposal(alice(), 0), Err(DaoError::ProposalDoesNotExist));
    assert_eq!(dao.create_proposal(alice()), Ok(()));
    assert_eq!(dao.vote(alice(), 1), Err(DaoError::ProposalDoesNotExist));
    assert_eq!(dao.remove_proposal(alice(), 1), Err(DaoError::ProposalDoesNotExist));
    assert_eq!(dao.vote(alice(), u32::MAX), Err(DaoError::ProposalDoesNotExist));
    assert_eq!(dao.remove_proposal(alice(), u32::MAX), Err(DaoError::ProposalDoesNotExist));
    assert_eq!(dao.get_proposal(u32::MAX), None);
    assert_eq!(dao.get_proposal(0), Some(BasicProposal { vote_count: 0 }));
    assert_eq!(dao.vote_count(alice()), 0);
}

#[test]
fn identities_differ_by_a_single_byte() {
    let mut near = [0x01u8; 32];
    near[31] = 0x02;
    let near = AccountId(near);
    let mut dao = Dao::new(String::from("test"));
    assert_eq!(dao.register_voter(alice()), Ok(()));
    assert_eq!(dao.has_voter(near), false);
    assert_eq!(dao.register_voter(near), Ok(()));
    assert_eq!(dao.has_voter(near), true);
    assert!(alice() == AccountId([0x01; 32]));
    assert!(alice() != near);
    assert!(alice().same(&alice()));
    assert!(!alice().same(&near));
}

#[test]
fn refused_create_leaves_the_length() {
    let mut dao = Dao::new(String::from("test"));
    assert_eq!(dao.register_voter(alice()), Ok(()));
    assert_eq!(dao.create_proposal(alice()), Ok(()));
    assert_eq!(dao.proposals().length(), 1);
    assert_eq!(dao.create_proposal(bob()), Err(DaoError::VoterNotRegistered));
    assert_eq!(dao.proposals().length(), 1);
}

#[test]
fn removal_leaves_the_length() {
    let mut dao = Dao::new(String::from("test"));
    assert_eq!(dao.register_voter(alice()), Ok(()));
    assert_eq!(dao.create_proposal(alice()), Ok(()));
    assert_eq!(dao.create_proposal(alice()), Ok(()));
    assert_eq!(dao.remove_proposal(alice(), 1), Ok(()));
    assert_eq!(dao.proposals().length(), 2);
    assert_eq!(dao.get_proposal(1), None);
    assert_eq!(dao.vote(alice(), 1), Err(DaoError::ProposalDoesNotExist));
    assert_eq!(dao.proposals().length(), 2);
}

#[test]
fn dao_can_be_put_together_from_its_parts() {
    let voters = VoterRegistry::from_entries(vec![
        VoterEntry { id: alice(), tally: 3 },
        VoterEntry { id: bob(), tally: 0 },
    ])
    .unwrap();
    let proposals =
        ProposalStore::from_slots(vec![None, Some(BasicProposal { vote_count: 3 })]).unwrap();
    let mut dao = Dao::from_parts(String::from("restored"), voters, proposals);
    assert_eq!(dao.get_name(), "restored");
    assert_eq!(dao.vote_count(alice()), 3);
    assert_eq!(dao.has_voter(bob()), true);
    assert_eq!(dao.get_proposal(0), None);
    assert_eq!(dao.vote(bob(), 0), Err(DaoError::ProposalDoesNotExist));
    assert_eq!(dao.vote(bob(), 1), Ok(()));
    assert_eq!(dao.get_proposal(1), Some(BasicProposal { vote_count: 4 }));
    assert_eq!(dao.voters().tally(&bob()), 1);
    assert_eq!(dao.voters().tally(&alice()), 3);
    assert_eq!(
        dao.proposals().slots(),
        vec![None, Some(BasicProposal { vote_count: 4 })]
    );
}

#[test]
fn counters_reach_their_largest_value() {
    let voters =
        VoterRegistry::from_entries(vec![VoterEntry { id: alice(), tally: u32::MAX - 1 }]).unwrap();
    let proposals =
        ProposalStore::from_slots(vec![Some(BasicProposal { vote_count: u32::MAX - 1 })]).unwrap();
    let mut dao = Dao::from_parts(String::from("test"), voters, proposals);
    assert_eq!(dao.vote(alice(), 0), Ok(()));
    assert_eq!(dao.vote_count(alice()), u32::MAX);
    assert_eq!(dao.get_proposal(0), Some(BasicProposal { vote_count: u32::MAX }));
}
