//! A small-group governance engine: members propose actions, vote on them and,
//! once a quorum of ayes among the current members is reached, execute them.
//!
//! The engine holds no handle to its host. Every operation takes the caller's
//! identity as an argument, and what has to happen outside the engine (a call
//! into the runtime, an event) is handed back as a plain value.
//!
//! Executing a proposal takes two steps. `ZeitDao::runtime_calls` decides
//! whether the proposal may be executed and lists the requests to submit to
//! the runtime. The host submits them and reports how that went to
//! `ZeitDao::execute`, which changes the engine only where all of it
//! succeeded.

pub mod account;
pub mod action;
pub mod ballots;
pub mod dao;
pub mod error;
pub mod events;
pub mod laws;
pub mod runtime;
pub mod state;

pub use account::AccountId;
pub use action::{DAOAction, StorableRuntimeAction};
pub use dao::{ProposalEntry, ZeitDao};
pub use error::{EnvError, ZeitDAOError};
pub use events::{ProposalExecuted, TestEvent};
pub use runtime::{
    AssetManagerCall, Deadlines, MarketDisputeMechanism, MarketPeriod, MarketType, MultiHash,
    PredictionMarketsCall, RuntimeCall, SystemCall, ZeitgeistAsset,
};
