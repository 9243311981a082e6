//! The events that the engine asks its host to emit.

use vstd::prelude::*;
use crate::account::AccountId;
use crate::action::DAOAction;

verus! {

/// A sign of life, with the account that asked for it.
#[derive(Debug, Clone, Copy, PartialEq)]
pub struct TestEvent {
    pub sender: AccountId,
}

/// A proposal was executed.
#[derive(Debug, PartialEq)]
pub struct ProposalExecuted {
    /// The account that triggered the execution.
    pub executor: AccountId,
    /// The index of the proposal.
    pub id: u32,
    /// The action that was carried out.
    pub action: DAOAction,
}

} // verus!
