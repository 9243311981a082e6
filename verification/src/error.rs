//! The errors of the engine, and the failures of its host that it maps to them.

use vstd::prelude::*;
use vstd::std_specs::convert::FromSpecImpl;

verus! {

/// Why an operation of the engine was refused.
#[derive(Debug, Clone, Copy, PartialEq, Eq, Structural)]
pub enum ZeitDAOError {
    /// The runtime executed a submitted call and reported an error.
    CallRuntimeFailed,
    /// The caller is not a member.
    OnlyMemberAllowed,
    /// The caller is not the engine's own account.
    OnlySelfAllowed,
    /// No proposal has the given index.
    ProposalDoesNotExist,
    /// The ayes of the current members are fewer than the quorum.
    NotEnoughVotesApproved,
    /// The proposal was executed before.
    AlreadyExecuted,
    /// The action cannot be carried out: a balance to split among no members.
    UnsupportedAction,
    /// The host failed in a way that no call into the runtime accounts for.
    Unexpected,
}

/// How a submission to the host can fail, by kind.
#[derive(Debug, Clone, Copy, PartialEq, Eq, Structural)]
pub enum EnvError {
    Decode,
    OffChain,
    CalleeTrapped,
    CalleeReverted,
    KeyNotFound,
    BelowSubsistenceThreshold,
    TransferFailed,
    EndowmentTooLow,
    CodeNotFound,
    NotCallable,
    Unknown,
    LoggingDisabled,
    CallRuntimeFailed,
    EcdsaRecoveryFailed,
}

/// The error that a failure of the host is reported as: a failed runtime
/// call keeps its kind, every other failure is unexpected.
pub open spec fn host_error(e: EnvError) -> ZeitDAOError {
    if e == EnvError::CallRuntimeFailed {
        ZeitDAOError::CallRuntimeFailed
    } else {
        ZeitDAOError::Unexpected
    }
}

impl From<EnvError> for ZeitDAOError {
    fn from(e: EnvError) -> (r: ZeitDAOError) {
        match e {
            EnvError::CallRuntimeFailed => ZeitDAOError::CallRuntimeFailed,
            _ => ZeitDAOError::Unexpected,
        }
    }
}

impl FromSpecImpl<EnvError> for ZeitDAOError {
    open spec fn obeys_from_spec() -> bool {
        true
    }

    open spec fn from_spec(e: EnvError) -> ZeitDAOError {
        host_error(e)
    }
}

} // verus!
