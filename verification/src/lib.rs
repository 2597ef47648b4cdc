//! Verified core of a Raft-replicated SQLite store.
use vstd::prelude::*;

pub mod client;
pub mod decimal;
pub mod errors;
pub mod ids;
pub mod memory;
pub mod models;
pub mod network;
pub mod query;
pub mod route;
pub mod rpc;
pub mod schema;
pub mod snapshot;
pub mod state_machine;

verus! {

/// The identifier of a node in the cluster.
pub type NodeId = u64;

} // verus!
