use zeit_dao::account::AccountId;
use zeit_dao::action::{DAOAction, StorableRuntimeAction};
use zeit_dao::dao::ZeitDao;
use zeit_dao::error::{EnvError, ZeitDAOError};
use zeit_dao::events::ProposalExecuted;
use zeit_dao::runtime::{AssetManagerCall, RuntimeCall, SystemCall, ZeitgeistAsset};

fn account(byte: u8) -> AccountId {
    AccountId::from([byte; 32])
}

fn remark(data: Vec<u8>) -> StorableRuntimeAction {
    StorableRuntimeAction { selector: DAOAction::RemarkWithEvent, data }
}

fn plain(selector: DAOAction) -> StorableRuntimeAction {
    StorableRuntimeAction { selector, data: Vec::new() }
}

fn three_members() -> (AccountId, AccountId, AccountId, ZeitDao) {
    let (a, b, c) = (account(1), account(2), account(3));
    (a, b, c, ZeitDao::new(2, vec![a, b, c]))
}

fn transfer(dest: AccountId, amount: u128) -> RuntimeCall {
    RuntimeCall::AssetManager(AssetManagerCall::Transfer {
        dest,
        currency_id: ZeitgeistAsset::Ztg,
        amount,
    })
}

#[test]
fn initialze_with_members() {
    let x = vec![AccountId::from([0x01; 32]), AccountId::from([0x05; 32])];
    let z = ZeitDao::new(1, x.clone());
    assert_eq!(z.members(), x);
}

#[test]
fn is_member_works() {
    let caller = AccountId::from([0x01; 32]);
    let z1 = ZeitDao::new(
        2,
        vec![AccountId::from([0x01; 32]), AccountId::from([0x05; 32])],
    );
    assert_eq!(z1.is_member(&caller), true);

    let z2: ZeitDao = ZeitDao::new(
        2,
        vec![AccountId::from([0x09; 32]), AccountId::from([0x05; 32])],
    );
    assert_eq!(z2.is_member(&caller), false);
}

#[test]
fn construction_fails_when_quorum_exceeds_members() {
    assert!(ZeitDao::try_new(3, vec![account(1), account(2)]).is_none());
    assert!(ZeitDao::try_new(1, Vec::new()).is_none());
    assert!(ZeitDao::try_new(u32::MAX, vec![account(1)]).is_none());
}

#[test]
fn construction_succeeds_up_to_the_number_of_members() {
    let members = vec![account(1), account(2)];
    for quorum in 0..=2u32 {
        let dao = ZeitDao::try_new(quorum, members.clone()).unwrap();
        assert_eq!(dao.quorum(), quorum);
        assert_eq!(dao.members(), members);
        assert_eq!(dao.proposal(0), None);
    }
    assert!(ZeitDao::try_new(0, Vec::new()).is_some());
}

#[test]
fn members_keep_order_and_duplicates() {
    let members = vec![account(9), account(1), account(9), account(4)];
    let dao = ZeitDao::new(4, members.clone());
    assert_eq!(dao.members(), members);
}

#[test]
fn is_member_goes_by_all_bytes() {
    let mut bytes = [7u8; 32];
    let member = AccountId::from(bytes);
    bytes[31] = 8;
    let near = AccountId::from(bytes);
    let dao = ZeitDao::new(1, vec![member]);
    assert!(dao.is_member(&member));
    assert!(!dao.is_member(&near));
    assert!(member != near);
    assert!(member == AccountId::from([7u8; 32]));
    assert!(!ZeitDao::new(0, Vec::new()).is_member(&member));
}

#[test]
fn propose_is_for_members_only() {
    let (_, _, _, mut dao) = three_members();
    assert_eq!(
        dao.propose(account(4), remark(vec![1])),
        Err(ZeitDAOError::OnlyMemberAllowed)
    );
    assert_eq!(dao.proposal(0), None);
    assert_eq!(dao.only_member(&account(4)), Err(ZeitDAOError::OnlyMemberAllowed));
    assert_eq!(dao.only_member(&account(1)), Ok(()));
}

#[test]
fn propose_returns_dense_indices() {
    let (a, b, c, mut dao) = three_members();
    assert_eq!(dao.propose(a, remark(vec![1])), Ok(0));
    assert_eq!(dao.propose(b, plain(DAOAction::DistributeBalance(5))), Ok(1));
    assert_eq!(dao.propose(account(4), remark(vec![9])), Err(ZeitDAOError::OnlyMemberAllowed));
    assert_eq!(dao.propose(c, remark(vec![3])), Ok(2));
    assert_eq!(dao.proposal(0), Some(remark(vec![1])));
    assert_eq!(dao.proposal(1), Some(plain(DAOAction::DistributeBalance(5))));
    assert_eq!(dao.proposal(2), Some(remark(vec![3])));
    assert_eq!(dao.proposal(3), None);
    assert_eq!(dao.proposal(u32::MAX), None);
}

#[test]
fn propose_casts_no_ballot() {
    let (a, _, _, mut dao) = three_members();
    assert_eq!(dao.propose(a, remark(vec![])), Ok(0));
    assert_eq!(dao.ballot(&a, 0), None);
    assert_eq!(dao.tally(0), 0);
}

#[test]
fn vote_on_missing_proposal_fails() {
    let (a, _, _, mut dao) = three_members();
    assert_eq!(dao.vote(a, 0, true), Err(ZeitDAOError::ProposalDoesNotExist));
    assert_eq!(dao.propose(a, remark(vec![])), Ok(0));
    assert_eq!(dao.vote(a, 1, true), Err(ZeitDAOError::ProposalDoesNotExist));
    assert_eq!(dao.vote(a, u32::MAX, false), Err(ZeitDAOError::ProposalDoesNotExist));
    assert_eq!(dao.ballot(&a, 1), None);
    assert_eq!(dao.check_proposal_exists(0), Ok(()));
    assert_eq!(dao.check_proposal_exists(1), Err(ZeitDAOError::ProposalDoesNotExist));
}

#[test]
fn vote_checks_membership_before_the_index() {
    let (a, _, _, mut dao) = three_members();
    let stranger = account(4);
    assert_eq!(dao.vote(stranger, 7, true), Err(ZeitDAOError::OnlyMemberAllowed));
    assert_eq!(dao.propose(a, remark(vec![])), Ok(0));
    assert_eq!(dao.vote(stranger, 0, true), Err(ZeitDAOError::OnlyMemberAllowed));
    assert_eq!(dao.ballot(&stranger, 0), None);
}

#[test]
fn execute_needs_quorum() {
    let (a, b, _, mut dao) = three_members();
    assert_eq!(dao.propose(a, remark(vec![0xaa])), Ok(0));
    assert_eq!(dao.vote(a, 0, true), Ok(()));
    assert_eq!(dao.tally(0), 1);
    assert_eq!(dao.runtime_calls(0), Err(ZeitDAOError::NotEnoughVotesApproved));
    assert_eq!(dao.execute(a, 0, Ok(())), Err(ZeitDAOError::NotEnoughVotesApproved));
    assert_eq!(dao.vote(b, 0, true), Ok(()));
    assert_eq!(dao.tally(0), 2);
    assert_eq!(
        dao.runtime_calls(0),
        Ok(vec![RuntimeCall::System(SystemCall::RemarkWithEvent { remark: vec![0xaa] })])
    );
    assert_eq!(
        dao.execute(a, 0, Ok(())),
        Ok(ProposalExecuted { executor: a, id: 0, action: DAOAction::RemarkWithEvent })
    );
}

#[test]
fn anyone_may_trigger_an_approved_proposal() {
    let (a, b, _, mut dao) = three_members();
    let stranger = account(200);
    assert_eq!(dao.propose(a, remark(vec![])), Ok(0));
    assert_eq!(dao.vote(a, 0, true), Ok(()));
    assert_eq!(dao.vote(b, 0, true), Ok(()));
    assert_eq!(
        dao.execute(stranger, 0, Ok(())),
        Ok(ProposalExecuted { executor: stranger, id: 0, action: DAOAction::RemarkWithEvent })
    );
}

#[test]
fn execute_on_missing_proposal_fails() {
    let (a, _, _, mut dao) = three_members();
    assert_eq!(dao.runtime_calls(0), Err(ZeitDAOError::ProposalDoesNotExist));
    assert_eq!(dao.execute(a, 0, Ok(())), Err(ZeitDAOError::ProposalDoesNotExist));
    assert_eq!(
        dao.execute(a, 0, Err(EnvError::CallRuntimeFailed)),
        Err(ZeitDAOError::ProposalDoesNotExist)
    );
}

#[test]
fn nays_and_missing_ballots_do_not_count() {
    let (a, b, c, mut dao) = three_members();
    assert_eq!(dao.propose(a, remark(vec![])), Ok(0));
    assert_eq!(dao.vote(a, 0, false), Ok(()));
    assert_eq!(dao.vote(b, 0, true), Ok(()));
    assert_eq!(dao.ballot(&a, 0), Some(false));
    assert_eq!(dao.ballot(&b, 0), Some(true));
    assert_eq!(dao.ballot(&c, 0), None);
    assert_eq!(dao.tally(0), 1);
    assert_eq!(dao.execute(a, 0, Ok(())), Err(ZeitDAOError::NotEnoughVotesApproved));
}

#[test]
fn revote_overwrites_the_ballot() {
    let (a, b, _, mut dao) = three_members();
    assert_eq!(dao.propose(a, remark(vec![])), Ok(0));
    assert_eq!(dao.vote(a, 0, true), Ok(()));
    assert_eq!(dao.vote(b, 0, true), Ok(()));
    assert_eq!(dao.tally(0), 2);
    assert_eq!(dao.vote(a, 0, false), Ok(()));
    assert_eq!(dao.ballot(&a, 0), Some(false));
    assert_eq!(dao.tally(0), 1);
    assert_eq!(dao.execute(a, 0, Ok(())), Err(ZeitDAOError::NotEnoughVotesApproved));
    assert_eq!(dao.vote(a, 0, false), Ok(()));
    assert_eq!(dao.tally(0), 1);
    assert_eq!(dao.vote(a, 0, true), Ok(()));
    assert_eq!(dao.vote(a, 0, true), Ok(()));
    assert_eq!(dao.tally(0), 2);
}

#[test]
fn ballots_are_kept_per_proposal() {
    let (a, b, _, mut dao) = three_members();
    assert_eq!(dao.propose(a, remark(vec![])), Ok(0));
    assert_eq!(dao.propose(a, remark(vec![])), Ok(1));
    assert_eq!(dao.vote(a, 0, true), Ok(()));
    assert_eq!(dao.vote(a, 1, false), Ok(()));
    assert_eq!(dao.vote(b, 1, true), Ok(()));
    assert_eq!(dao.ballot(&a, 0), Some(true));
    assert_eq!(dao.ballot(&a, 1), Some(false));
    assert_eq!(dao.ballot(&b, 0), None);
    assert_eq!(dao.tally(0), 1);
    assert_eq!(dao.tally(1), 1);
    assert_eq!(dao.tally(2), 0);
}

#[test]
fn add_then_remove_member() {
    let (a, b, c, mut dao) = three_members();
    let d = account(4);
    assert_eq!(dao.propose(a, plain(DAOAction::AddMember(d))), Ok(0));
    assert_eq!(dao.vote(a, 0, true), Ok(()));
    assert_eq!(dao.vote(b, 0, true), Ok(()));
    assert_eq!(dao.runtime_calls(0), Ok(Vec::new()));
    assert_eq!(
        dao.execute(c, 0, Ok(())),
        Ok(ProposalExecuted { executor: c, id: 0, action: DAOAction::AddMember(d) })
    );
    assert_eq!(dao.members(), vec![a, b, c, d]);
    assert!(dao.is_member(&d));

    assert_eq!(dao.propose(d, plain(DAOAction::RemoveMember(d))), Ok(1));
    assert_eq!(dao.vote(d, 1, true), Ok(()));
    assert_eq!(dao.vote(c, 1, true), Ok(()));
    assert_eq!(
        dao.execute(a, 1, Ok(())),
        Ok(ProposalExecuted { executor: a, id: 1, action: DAOAction::RemoveMember(d) })
    );
    assert_eq!(dao.members(), vec![a, b, c]);
    assert!(!dao.is_member(&d));
    assert_eq!(dao.propose(d, remark(vec![])), Err(ZeitDAOError::OnlyMemberAllowed));
}

#[test]
fn remove_member_removes_every_entry() {
    let (a, b) = (account(1), account(2));
    let mut dao = ZeitDao::new(1, vec![a, b, a, a]);
    assert_eq!(dao.propose(b, plain(DAOAction::RemoveMember(a))), Ok(0));
    assert_eq!(dao.vote(b, 0, true), Ok(()));
    assert!(dao.execute(b, 0, Ok(())).is_ok());
    assert_eq!(dao.members(), vec![b]);
}

#[test]
fn an_account_listed_twice_counts_twice() {
    let (a, b) = (account(1), account(2));
    let mut dao = ZeitDao::new(2, vec![a, b, a]);
    assert_eq!(dao.propose(a, remark(vec![])), Ok(0));
    assert_eq!(dao.vote(a, 0, true), Ok(()));
    assert_eq!(dao.tally(0), 2);
    assert!(dao.execute(a, 0, Ok(())).is_ok());
}

#[test]
fn removed_members_votes_are_dropped() {
    let (a, b, c, mut dao) = three_members();
    assert_eq!(dao.propose(a, remark(vec![])), Ok(0));
    assert_eq!(dao.propose(a, plain(DAOAction::RemoveMember(a))), Ok(1));
    assert_eq!(dao.vote(a, 0, true), Ok(()));
    assert_eq!(dao.vote(b, 0, true), Ok(()));
    assert_eq!(dao.vote(b, 1, true), Ok(()));
    assert_eq!(dao.vote(c, 1, true), Ok(()));
    assert_eq!(dao.tally(0), 2);
    assert!(dao.execute(c, 1, Ok(())).is_ok());
    assert_eq!(dao.members(), vec![b, c]);
    assert_eq!(dao.ballot(&a, 0), Some(true));
    assert_eq!(dao.tally(0), 1);
    assert_eq!(dao.execute(c, 0, Ok(())), Err(ZeitDAOError::NotEnoughVotesApproved));
    assert_eq!(dao.vote(c, 0, true), Ok(()));
    assert!(dao.execute(c, 0, Ok(())).is_ok());
}

#[test]
fn executing_twice_is_refused() {
    let (a, b, _, mut dao) = three_members();
    let d = account(4);
    assert_eq!(dao.propose(a, plain(DAOAction::AddMember(d))), Ok(0));
    assert_eq!(dao.vote(a, 0, true), Ok(()));
    assert_eq!(dao.vote(b, 0, true), Ok(()));
    assert!(dao.execute(a, 0, Ok(())).is_ok());
    assert_eq!(dao.execute(a, 0, Ok(())), Err(ZeitDAOError::AlreadyExecuted));
    assert_eq!(dao.execute(b, 0, Err(EnvError::Unknown)), Err(ZeitDAOError::AlreadyExecuted));
    assert_eq!(dao.runtime_calls(0), Err(ZeitDAOError::AlreadyExecuted));
    assert_eq!(dao.members(), vec![a, b, account(3), d]);
    assert_eq!(dao.proposal(0), Some(plain(DAOAction::AddMember(d))));
    assert_eq!(dao.vote(a, 0, false), Ok(()));
}

#[test]
fn failed_submission_changes_nothing() {
    let (a, b, c, mut dao) = three_members();
    let d = account(4);
    let batch = DAOAction::Batch(vec![DAOAction::AddMember(d), DAOAction::DistributeBalance(8)]);
    assert_eq!(dao.propose(a, plain(batch)), Ok(0));
    assert_eq!(dao.vote(a, 0, true), Ok(()));
    assert_eq!(dao.vote(b, 0, true), Ok(()));
    assert_eq!(
        dao.execute(a, 0, Err(EnvError::CallRuntimeFailed)),
        Err(ZeitDAOError::CallRuntimeFailed)
    );
    assert_eq!(dao.members(), vec![a, b, c]);
    assert_eq!(dao.execute(a, 0, Err(EnvError::Decode)), Err(ZeitDAOError::Unexpected));
    assert_eq!(dao.members(), vec![a, b, c]);
    assert!(dao.execute(a, 0, Ok(())).is_ok());
    assert_eq!(dao.members(), vec![a, b, c, d]);
}

#[test]
fn distribute_balance_pays_each_member_a_share() {
    let (a, b, c, mut dao) = three_members();
    assert_eq!(dao.propose(a, plain(DAOAction::DistributeBalance(100))), Ok(0));
    assert_eq!(dao.vote(a, 0, true), Ok(()));
    assert_eq!(dao.vote(c, 0, true), Ok(()));
    assert_eq!(
        dao.runtime_calls(0),
        Ok(vec![transfer(a, 33), transfer(b, 33), transfer(c, 33)])
    );
    assert!(dao.execute(account(77), 0, Ok(())).is_ok());
    assert_eq!(dao.members(), vec![a, b, c]);
}

#[test]
fn distribute_balance_among_no_members_is_unsupported() {
    let a = account(1);
    let mut dao = ZeitDao::new(0, vec![a]);
    let batch = DAOAction::Batch(vec![DAOAction::RemoveMember(a), DAOAction::DistributeBalance(10)]);
    assert_eq!(dao.propose(a, plain(batch)), Ok(0));
    assert_eq!(dao.runtime_calls(0), Err(ZeitDAOError::UnsupportedAction));
    assert_eq!(dao.execute(a, 0, Ok(())), Err(ZeitDAOError::UnsupportedAction));
    assert_eq!(dao.members(), vec![a]);
    assert_eq!(dao.execute(a, 0, Ok(())), Err(ZeitDAOError::UnsupportedAction));
}

#[test]
fn quorum_zero_needs_no_vote() {
    let a = account(1);
    let mut dao = ZeitDao::new(0, vec![a]);
    assert_eq!(dao.propose(a, remark(vec![1, 2, 3])), Ok(0));
    assert_eq!(
        dao.runtime_calls(0),
        Ok(vec![RuntimeCall::System(SystemCall::RemarkWithEvent { remark: vec![1, 2, 3] })])
    );
    assert!(dao.execute(a, 0, Ok(())).is_ok());
}

#[test]
fn batch_runs_in_order_on_the_members_so_far() {
    let (a, b, c, mut dao) = three_members();
    let d = account(4);
    let batch = DAOAction::Batch(vec![
        DAOAction::DistributeBalance(9),
        DAOAction::AddMember(d),
        DAOAction::Batch(vec![DAOAction::RemoveMember(a), DAOAction::RemarkWithEvent]),
        DAOAction::DistributeBalance(10),
    ]);
    assert_eq!(
        dao.propose(a, StorableRuntimeAction { selector: batch.clone(), data: vec![5, 6] }),
        Ok(0)
    );
    assert_eq!(dao.vote(a, 0, true), Ok(()));
    assert_eq!(dao.vote(b, 0, true), Ok(()));
    assert_eq!(
        dao.runtime_calls(0),
        Ok(vec![
            transfer(a, 3),
            transfer(b, 3),
            transfer(c, 3),
            RuntimeCall::System(SystemCall::RemarkWithEvent { remark: vec![5, 6] }),
            transfer(b, 3),
            transfer(c, 3),
            transfer(d, 3),
        ])
    );
    assert_eq!(dao.members(), vec![a, b, c]);
    assert_eq!(
        dao.execute(b, 0, Ok(())),
        Ok(ProposalExecuted { executor: b, id: 0, action: batch })
    );
    assert_eq!(dao.members(), vec![b, c, d]);
}

#[test]
fn empty_batch_does_nothing() {
    let (a, b, c, mut dao) = three_members();
    assert_eq!(dao.propose(a, plain(DAOAction::Batch(Vec::new()))), Ok(0));
    assert_eq!(dao.vote(a, 0, true), Ok(()));
    assert_eq!(dao.vote(b, 0, true), Ok(()));
    assert_eq!(dao.runtime_calls(0), Ok(Vec::new()));
    assert!(dao.execute(a, 0, Ok(())).is_ok());
    assert_eq!(dao.members(), vec![a, b, c]);
    assert_eq!(dao.execute(a, 0, Ok(())), Err(ZeitDAOError::AlreadyExecuted));
}
