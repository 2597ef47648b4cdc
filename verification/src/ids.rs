//! Identifiers of Raft log entries and votes, as the consensus layer sees them.
use vstd::prelude::*;

use crate::NodeId;

verus! {

/// The leader of a term: the term number and the node elected in it.
#[derive(Clone, Copy, Debug, PartialEq, Eq, Structural)]
pub struct RaftLeaderId {
    pub term: u64,
    pub node_id: NodeId,
}

/// The identity of a log entry: the leader that proposed it and its index.
#[derive(Clone, Copy, Debug, PartialEq, Eq, Structural)]
pub struct RaftLogId {
    pub leader_id: RaftLeaderId,
    pub index: u64,
}

/// A vote for a leader, and whether a quorum has granted it.
#[derive(Clone, Copy, Debug, PartialEq, Eq, Structural)]
pub struct RaftVote {
    pub leader_id: RaftLeaderId,
    pub committed: bool,
}

/// What the log store reports of its bounds: the last id removed by purging,
/// and the last id present (or, with an empty log, the last purged one).
#[derive(Clone, Copy, Debug, PartialEq, Eq, Structural)]
pub struct RaftLogState {
    pub last_purged_log_id: Option<RaftLogId>,
    pub last_log_id: Option<RaftLogId>,
}

/// The id of the last stored entry when there is one, else the last purged id.
pub open spec fn latest_log_id(last_log: Option<RaftLogId>, last_purged: Option<RaftLogId>) -> Option<RaftLogId> {
    match last_log {
        Some(id) => Some(id),
        None => last_purged,
    }
}

/// Combines the last stored entry's id and the last purged id into the log state.
pub fn log_state(last_log: Option<RaftLogId>, last_purged: Option<RaftLogId>) -> (state: RaftLogState)
    ensures
        state.last_purged_log_id == last_purged,
        state.last_log_id == latest_log_id(last_log, last_purged),
{
    let last_log_id = match last_log {
        Some(id) => Some(id),
        None => last_purged,
    };
    RaftLogState { last_purged_log_id: last_purged, last_log_id }
}

/// The log id read back from a row of the log table, whose columns are signed.
pub open spec fn log_id_of_row(node_id: i64, index: i64, term: i64) -> RaftLogId {
    RaftLogId {
        leader_id: RaftLeaderId { term: term as u64, node_id: node_id as u64 },
        index: index as u64,
    }
}

/// Rebuilds a log id from the `node_id`, `log_index` and `term` columns of a row.
pub fn log_id_from_row(node_id: i64, index: i64, term: i64) -> (id: RaftLogId)
    ensures
        id == log_id_of_row(node_id, index, term),
{
    RaftLogId {
        leader_id: RaftLeaderId { term: term as u64, node_id: node_id as u64 },
        index: index as u64,
    }
}

/// The log state names a last log id whenever the log or its purged part names one.
pub proof fn lemma_log_state_keeps_latest(last_log: Option<RaftLogId>, last_purged: Option<RaftLogId>)
    ensures
        latest_log_id(last_log, last_purged) is None <==> (last_log is None && last_purged is None),
        last_log is Some ==> latest_log_id(last_log, last_purged) == last_log,
{
}

/// A log id written to a row of the log table (its node id, index and term in
/// the signed columns) is read back as the same log id.
pub proof fn lemma_row_roundtrip(id: RaftLogId)
    ensures
        log_id_of_row(id.leader_id.node_id as i64, id.index as i64, id.leader_id.term as i64) == id,
{
    let n = id.leader_id.node_id;
    let i = id.index;
    let t = id.leader_id.term;
    assert((n as i64) as u64 == n) by (bit_vector);
    assert((i as i64) as u64 == i) by (bit_vector);
    assert((t as i64) as u64 == t) by (bit_vector);
}

} // verus!
