//! The engine: members, quorum, proposal log and ballots.

use vstd::prelude::*;
use crate::account::AccountId;
use crate::action::{dispatched_as, DAOAction, StorableRuntimeAction};
use crate::ballots::{cast_all, Ballot, BallotTable};
use crate::error::{EnvError, ZeitDAOError};
use crate::events::{ProposalExecuted, TestEvent};
use crate::runtime::{call_views, create_market_call, transfer_call, RuntimeCall};
use crate::state::{voted_aye, DaoState, ProposalState};

verus! {

/// An entry of the proposal log.
#[derive(Debug, PartialEq)]
pub struct ProposalEntry {
    /// What the proposal asks for.
    pub action: StorableRuntimeAction,
    /// Whether it was executed.
    pub executed: bool,
}

impl View for ProposalEntry {
    type V = ProposalState;

    open spec fn view(&self) -> ProposalState {
        ProposalState { action: self.action@, executed: self.executed }
    }
}

impl Clone for ProposalEntry {
    fn clone(&self) -> (copy: ProposalEntry)
        ensures
            copy@ == self@,
    {
        ProposalEntry { action: self.action.clone(), executed: self.executed }
    }
}

/// The views of a sequence of log entries, in order.
pub open spec fn entry_views(entries: Seq<ProposalEntry>) -> Seq<ProposalState> {
    entries.map_values(|entry: ProposalEntry| entry@)
}

/// The governance engine.
#[derive(Debug)]
pub struct ZeitDao {
    /// The members that have a vote.
    members: Vec<AccountId>,
    /// The ballot of an account on a proposal.
    votes: BallotTable,
    /// The number of ayes needed before a proposal may be executed.
    quorum: u32,
    /// The proposal log.
    proposals: Vec<ProposalEntry>,
}

impl View for ZeitDao {
    type V = DaoState;

    closed spec fn view(&self) -> DaoState {
        DaoState {
            members: self.members@,
            quorum: self.quorum,
            proposals: entry_views(self.proposals@),
            ballots: self.votes@,
        }
    }
}

impl ZeitDao {
    /// An engine with the given members and quorum, without proposals.
    pub fn new(quorum: u32, members: Vec<AccountId>) -> (dao: ZeitDao)
        requires
            quorum <= members@.len(),
        ensures
            dao@ == DaoState::init(quorum, members@),
    {
        let dao = ZeitDao { members, votes: BallotTable::new(), quorum, proposals: Vec::new() };
        assert(dao@.proposals =~= Seq::empty());
        dao
    }

    /// An engine in the given state: with the members, the quorum and the
    /// proposal log as given, and with the ballots of `cast`, recorded in
    /// their order.
    pub fn from_parts(
        quorum: u32,
        members: Vec<AccountId>,
        proposals: Vec<ProposalEntry>,
        cast: &Vec<Ballot>,
    ) -> (dao: ZeitDao)
        ensures
            dao@ == (DaoState {
                members: members@,
                quorum,
                proposals: entry_views(proposals@),
                ballots: cast_all(cast@),
            }),
    {
        ZeitDao { members, votes: BallotTable::from_ballots(cast), quorum, proposals }
    }

    /// An engine with the given members and quorum, or nothing where the
    /// quorum is more than the number of members.
    pub fn try_new(quorum: u32, members: Vec<AccountId>) -> (made: Option<ZeitDao>)
        ensures
            made is Some <==> quorum <= members@.len(),
            made matches Some(dao) ==> dao@ == DaoState::init(quorum, members@),
    {
        if quorum as usize > members.len() {
            None
        } else {
            Some(ZeitDao::new(quorum, members))
        }
    }

    /// The members, in order.
    pub fn members(&self) -> (list: Vec<AccountId>)
        ensures
            list@ == self@.members,
    {
        self.members.clone()
    }

    /// Whether `caller` is a member.
    pub fn is_member(&self, caller: &AccountId) -> (found: bool)
        ensures
            found == self@.is_member(*caller),
    {
        let mut i: usize = 0;
        while i < self.members.len()
            invariant
                i <= self.members.len(),
                forall|j: int| 0 <= j < i ==> self.members@[j] != *caller,
            decreases self.members.len() - i,
        {
            if self.members[i] == *caller {
                return true;
            }
            i += 1;
        }
        false
    }

    /// The proposal with index `id`, if the log has one.
    pub fn proposal(&self, id: u32) -> (found: Option<StorableRuntimeAction>)
        ensures
            found is Some <==> self@.has_proposal(id),
            found matches Some(action) ==> action@ == self@.proposals[id as int].action,
    {
        if (id as usize) < self.proposals.len() {
            Some(self.proposals[id as usize].action.clone())
        } else {
            None
        }
    }

    /// Fails unless `caller` is a member.
    pub fn only_member(&self, caller: &AccountId) -> (r: Result<(), ZeitDAOError>)
        ensures
            r == if self@.is_member(*caller) {
                Ok::<(), ZeitDAOError>(())
            } else {
                Err(ZeitDAOError::OnlyMemberAllowed)
            },
    {
        if !self.is_member(caller) {
            return Err(ZeitDAOError::OnlyMemberAllowed);
        }
        Ok(())
    }

    /// Fails unless `caller` is `own`, the account of the engine itself.
    pub fn only_self(&self, caller: &AccountId, own: &AccountId) -> (r: Result<(), ZeitDAOError>)
        ensures
            r == if *caller == *own {
                Ok::<(), ZeitDAOError>(())
            } else {
                Err(ZeitDAOError::OnlySelfAllowed)
            },
    {
        if *caller != *own {
            return Err(ZeitDAOError::OnlySelfAllowed);
        }
        Ok(())
    }

    /// Fails unless the log has a proposal with index `id`.
    pub fn check_proposal_exists(&self, id: u32) -> (r: Result<(), ZeitDAOError>)
        ensures
            r == if self@.has_proposal(id) {
                Ok::<(), ZeitDAOError>(())
            } else {
                Err(ZeitDAOError::ProposalDoesNotExist)
            },
    {
        if self.proposals.len() <= id as usize {
            return Err(ZeitDAOError::ProposalDoesNotExist);
        }
        Ok(())
    }

    /// Lets the member `caller` log a proposal for the members to vote on.
    /// Returns its index: the length of the log before. No ballot is cast.
    pub fn propose(&mut self, caller: AccountId, action: StorableRuntimeAction) -> (r: Result<
        u32,
        ZeitDAOError,
    >)
        requires
            old(self)@.proposals.len() <= u32::MAX,
        ensures
            r == old(self)@.propose_result(caller),
            final(self)@ == old(self)@.propose(caller, action@),
    {
        self.only_member(&caller)?;
        let index = self.proposals.len() as u32;
        self.proposals.push(ProposalEntry { action, executed: false });
        assert(self@.proposals =~= old(self)@.proposals.push(
            ProposalState { action: action@, executed: false },
        ));
        Ok(index)
    }

    /// Lets the member `caller` vote on proposal `id`, in place of the ballot
    /// that the member cast on it before, if any.
    pub fn vote(&mut self, caller: AccountId, id: u32, direction: bool) -> (r: Result<
        (),
        ZeitDAOError,
    >)
        ensures
            r == old(self)@.vote_result(caller, id),
            final(self)@ == old(self)@.vote(caller, id, direction),
    {
        self.only_member(&caller)?;
        self.check_proposal_exists(id)?;
        self.votes.insert(caller, id, direction);
        assert(self@.proposals =~= old(self)@.proposals);
        Ok(())
    }

    /// The ballot of `voter` on proposal `id`, if one was cast.
    pub fn ballot(&self, voter: &AccountId, id: u32) -> (cast: Option<bool>)
        ensures
            cast == if self@.ballots.contains_key((*voter, id)) {
                Some(self@.ballots[(*voter, id)])
            } else {
                None
            },
    {
        self.votes.get(voter, id)
    }

    /// The number of ayes on proposal `id` among the current members.
    pub fn tally(&self, id: u32) -> (ayes: usize)
        ensures
            ayes == self@.tally(id),
    {
        let ghost aye = voted_aye(self@.ballots, id);
        let mut ayes: usize = 0;
        let mut i: usize = 0;
        proof {
            reveal(Seq::filter);
            assert(self.members@.take(0) =~= Seq::empty());
        }
        while i < self.members.len()
            invariant
                i <= self.members.len(),
                aye == voted_aye(self@.ballots, id),
                ayes <= i,
                ayes == self.members@.take(i as int).filter(aye).len(),
            decreases self.members.len() - i,
        {
            proof {
                assert(self.members@.take(i as int).push(self.members@[i as int])
                    =~= self.members@.take(i as int + 1));
                self.members@.take(i as int).lemma_filter_push(self.members@[i as int], aye);
            }
            if let Some(true) = self.votes.get(&self.members[i], id) {
                ayes += 1;
            }
            i += 1;
        }
        assert(self.members@.take(i as int) =~= self.members@);
        ayes
    }

    /// The length of the proposal log.
    pub fn proposal_count(&self) -> (count: usize)
        ensures
            count == self@.proposals.len(),
    {
        self.proposals.len()
    }

    /// Whether the log has a proposal with index `id` that was executed.
    pub fn is_executed(&self, id: u32) -> (executed: bool)
        ensures
            executed == (self@.has_proposal(id) && self@.proposals[id as int].executed),
    {
        (id as usize) < self.proposals.len() && self.proposals[id as usize].executed
    }

    /// The proposal log.
    pub fn proposals(&self) -> (log: Vec<ProposalEntry>)
        ensures
            entry_views(log@) == self@.proposals,
    {
        let mut log: Vec<ProposalEntry> = Vec::new();
        let mut i: usize = 0;
        while i < self.proposals.len()
            invariant
                i <= self.proposals.len(),
                log.len() == i,
                forall|j: int| 0 <= j < i ==> log@[j]@ == self.proposals@[j]@,
            decreases self.proposals.len() - i,
        {
            log.push(self.proposals[i].clone());
            i += 1;
        }
        assert(entry_views(log@) =~= entry_views(self.proposals@));
        log
    }

    /// The number of ayes that a proposal needs.
    pub fn quorum(&self) -> (quorum: u32)
        ensures
            quorum == self@.quorum,
    {
        self.quorum
    }

    /// The requests that executing proposal `id` submits to the runtime, in
    /// order, or why the proposal may not be executed. The members are paid
    /// their shares one by one; whoever triggers the execution gets nothing
    /// for it.
    pub fn runtime_calls(&self, id: u32) -> (r: Result<Vec<RuntimeCall>, ZeitDAOError>)
        ensures
            match self@.execution(id) {
                Err(e) => r == Err::<Vec<RuntimeCall>, ZeitDAOError>(e),
                Ok(d) => r matches Ok(calls) && call_views(calls@) == d.calls,
            },
    {
        match self.dispatch(id) {
            Err(e) => Err(e),
            Ok((_, calls)) => Ok(calls),
        }
    }

    /// Checks that proposal `id` may be executed and carries its action out
    /// on a copy of the members.
    fn dispatch(&self, id: u32) -> (r: Result<(Vec<AccountId>, Vec<RuntimeCall>), ZeitDAOError>)
        ensures
            dispatched_as(r, self@.execution(id)),
    {
        self.check_proposal_exists(id)?;
        let entry = &self.proposals[id as usize];
        if entry.executed {
            return Err(ZeitDAOError::AlreadyExecuted);
        }
        if self.tally(id) < self.quorum as usize {
            return Err(ZeitDAOError::NotEnoughVotesApproved);
        }
        entry.action.selector.dispatch(&entry.action.data, self.members.clone())
    }

    /// Executes proposal `id` on behalf of `caller`, who need not be a member:
    /// the quorum is the authorization. `submitted` says how the submission of
    /// the proposal's requests to the runtime went. Where the proposal may be
    /// executed and the submission succeeded, the members become those that
    /// the action leaves, the proposal is marked as executed, and the event
    /// to emit is returned. On any failure the engine is left as it was.
    pub fn execute(&mut self, caller: AccountId, id: u32, submitted: Result<(), EnvError>) -> (r:
        Result<ProposalExecuted, ZeitDAOError>)
        ensures
            match old(self)@.execute_result(id, submitted) {
                Err(e) => r == Err::<ProposalExecuted, ZeitDAOError>(e),
                Ok(_) => r matches Ok(event) && event.executor == caller && event.id == id
                    && event.action@ == old(self)@.proposals[id as int].action.selector,
            },
            final(self)@ == old(self)@.execute(id, submitted),
    {
        let (members, _) = self.dispatch(id)?;
        if let Err(e) = submitted {
            return Err(ZeitDAOError::from(e));
        }
        let action = self.proposals[id as usize].action.selector.clone();
        self.members = members;
        self.proposals[id as usize].executed = true;
        assert(self@.proposals =~= old(self)@.proposals.update(
            id as int,
            ProposalState { executed: true, ..old(self)@.proposals[id as int] },
        ));
        Ok(ProposalExecuted { executor: caller, id, action })
    }

    /// The request that moves `balance` to `target`, which only the engine
    /// itself may ask for: `caller` has to be `own`, the engine's account.
    pub fn distribute(
        &self,
        caller: &AccountId,
        own: &AccountId,
        balance: u128,
        target: AccountId,
    ) -> (r: Result<RuntimeCall, ZeitDAOError>)
        ensures
            *caller != *own ==> r == Err::<RuntimeCall, ZeitDAOError>(
                ZeitDAOError::OnlySelfAllowed,
            ),
            *caller == *own ==> (r matches Ok(call) && call@ == transfer_call(target, balance)),
    {
        self.only_self(caller, own)?;
        Ok(RuntimeCall::transfer(target, balance))
    }

    /// The event that reports `caller` as its sender.
    pub fn test_event(&self, caller: AccountId) -> (event: TestEvent)
        ensures
            event.sender == caller,
    {
        TestEvent { sender: caller }
    }

    /// The request that moves one unit of the native asset, 10^10 of its
    /// smallest parts, to `caller`.
    pub fn test_asset_manager(&self, caller: AccountId) -> (call: RuntimeCall)
        ensures
            call@ == transfer_call(caller, 10_000_000_000),
    {
        RuntimeCall::transfer(caller, 10_000_000_000)
    }

    /// The request that creates a sample market with the engine's account
    /// `own` as its oracle, open from the block after `block_number`.
    pub fn test_create_market(&self, own: AccountId, block_number: u32) -> (call: RuntimeCall)
        requires
            block_number + 150 <= u32::MAX,
        ensures
            call@ == create_market_call(own, block_number),
    {
        RuntimeCall::create_market(own, block_number)
    }
}

} // verus!
