//! The engine as a state machine over mathematical values: what each
//! operation answers, and the state it leaves.

use vstd::prelude::*;
use crate::account::AccountId;
use crate::action::{dispatch, Dispatched, StorableRuntimeActionView};
use crate::error::{host_error, EnvError, ZeitDAOError};

verus! {

/// An entry of the proposal log.
pub struct ProposalState {
    /// What the proposal asks for.
    pub action: StorableRuntimeActionView,
    /// Whether it was executed.
    pub executed: bool,
}

/// The state of the engine.
pub struct DaoState {
    /// The members, in order. An account may occur more than once.
    pub members: Seq<AccountId>,
    /// The number of ayes that a proposal needs.
    pub quorum: u32,
    /// The proposal log: a proposal's index is its place in it.
    pub proposals: Seq<ProposalState>,
    /// The latest ballot of each voter on each proposal.
    pub ballots: Map<(AccountId, u32), bool>,
}

/// Holds of every account whose ballot on proposal `id` is an aye.
pub open spec fn voted_aye(ballots: Map<(AccountId, u32), bool>, id: u32) -> spec_fn(
    AccountId,
) -> bool {
    |who: AccountId| ballots.contains_key((who, id)) && ballots[(who, id)]
}

impl DaoState {
    /// The state after construction: no proposal, no ballot.
    pub open spec fn init(quorum: u32, members: Seq<AccountId>) -> DaoState {
        DaoState { members, quorum, proposals: Seq::empty(), ballots: Map::empty() }
    }

    /// Whether `who` is among the members.
    pub open spec fn is_member(self, who: AccountId) -> bool {
        self.members.contains(who)
    }

    /// Whether the log has a proposal with index `id`.
    pub open spec fn has_proposal(self, id: u32) -> bool {
        id < self.proposals.len()
    }

    /// The number of entries of the current members whose ballot on proposal
    /// `id` is an aye. An account without a ballot counts as a nay.
    pub open spec fn tally(self, id: u32) -> nat {
        self.members.filter(voted_aye(self.ballots, id)).len()
    }

    /// What `propose` answers to `caller`.
    pub open spec fn propose_result(self, caller: AccountId) -> Result<u32, ZeitDAOError> {
        if !self.is_member(caller) {
            Err(ZeitDAOError::OnlyMemberAllowed)
        } else {
            Ok(self.proposals.len() as u32)
        }
    }

    /// The state after `caller` proposed `action`.
    pub open spec fn propose(self, caller: AccountId, action: StorableRuntimeActionView) -> DaoState {
        if !self.is_member(caller) {
            self
        } else {
            DaoState {
                proposals: self.proposals.push(ProposalState { action, executed: false }),
                ..self
            }
        }
    }

    /// What `vote` answers to `caller` for proposal `id`.
    pub open spec fn vote_result(self, caller: AccountId, id: u32) -> Result<(), ZeitDAOError> {
        if !self.is_member(caller) {
            Err(ZeitDAOError::OnlyMemberAllowed)
        } else if !self.has_proposal(id) {
            Err(ZeitDAOError::ProposalDoesNotExist)
        } else {
            Ok(())
        }
    }

    /// The state after `caller` voted `aye` on proposal `id`.
    pub open spec fn vote(self, caller: AccountId, id: u32, aye: bool) -> DaoState {
        if self.vote_result(caller, id) is Ok {
            DaoState { ballots: self.ballots.insert((caller, id), aye), ..self }
        } else {
            self
        }
    }

    /// What executing proposal `id` comes to: the members afterwards and the
    /// requests to submit to the runtime, or why it may not be executed.
    pub open spec fn execution(self, id: u32) -> Result<Dispatched, ZeitDAOError> {
        if !self.has_proposal(id) {
            Err(ZeitDAOError::ProposalDoesNotExist)
        } else if self.proposals[id as int].executed {
            Err(ZeitDAOError::AlreadyExecuted)
        } else if self.tally(id) < self.quorum {
            Err(ZeitDAOError::NotEnoughVotesApproved)
        } else {
            dispatch(
                self.proposals[id as int].action.selector,
                self.proposals[id as int].action.data,
                self.members,
            )
        }
    }

    /// What `execute` answers for proposal `id`, given how the submission of
    /// its requests went.
    pub open spec fn execute_result(self, id: u32, submitted: Result<(), EnvError>) -> Result<
        (),
        ZeitDAOError,
    > {
        match self.execution(id) {
            Err(e) => Err(e),
            Ok(_) => match submitted {
                Err(e) => Err(host_error(e)),
                Ok(_) => Ok(()),
            },
        }
    }

    /// The state after `execute` on proposal `id`: on success the members are
    /// those that the action leaves and the proposal is marked as executed;
    /// on any failure nothing changes.
    pub open spec fn execute(self, id: u32, submitted: Result<(), EnvError>) -> DaoState {
        if self.execute_result(id, submitted) is Ok {
            DaoState {
                members: self.execution(id)->Ok_0.members,
                proposals: self.proposals.update(
                    id as int,
                    ProposalState { executed: true, ..self.proposals[id as int] },
                ),
                ..self
            }
        } else {
            self
        }
    }
}

} // verus!
