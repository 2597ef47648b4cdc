//! The messages exchanged between cluster nodes, and the rules that build and
//! read them on either side of a call.
use vstd::prelude::*;

use crate::ids::{RaftLeaderId, RaftLogId, RaftVote};
use crate::NodeId;

verus! {

/// A node's id and the address of its RPC endpoint.
pub struct Node {
    pub id: u64,
    pub rpc_addr: String,
}

/// The reply to every cluster call: an error code, the leader to turn to when
/// the callee is not the leader, a message, and serialized extra data.
pub struct RpcResponse {
    pub error: i32,
    pub leader: Option<Node>,
    pub message: String,
    pub additional_data: Vec<u8>,
}

/// A vote, as it travels on the wire.
#[derive(Clone, Copy, Debug, PartialEq, Eq, Structural)]
pub struct Vote {
    pub term: u64,
    pub node_id: u64,
    pub committed: bool,
}

/// A log id, as it travels on the wire.
#[derive(Clone, Copy, Debug, PartialEq, Eq, Structural)]
pub struct LogId {
    pub term: u64,
    pub node_id: u64,
    pub index: u64,
}

pub struct AppendEntriesRequest {
    pub vote: Option<Vote>,
    pub prev_log_id: Option<LogId>,
    pub entries: Vec<u8>,
    pub leader_commit: Option<LogId>,
}

pub struct InstallSnapshotRequest {
    pub vote: Option<Vote>,
    pub meta: Vec<u8>,
    pub offset: u64,
    pub data: Vec<u8>,
    pub done: bool,
}

pub struct VoteRequest {
    pub vote: Option<Vote>,
    pub last_log_id: Option<LogId>,
}

pub struct ChangeMembershipRequest {
    pub members: Vec<u64>,
}

pub struct MetricsRequest {}

pub struct MutateRequest {
    pub sql: String,
    pub parameters: Vec<u8>,
}

/// The error codes that a cluster response carries.
#[derive(Clone, Copy, Debug, PartialEq, Eq, Structural)]
pub enum RpcError {
    NoError,
    ForwardToLeader,
    ChangeMembership,
    Fatal,
    Network,
    SnapshotMismatch,
}

/// The number that stands for each error code on the wire.
pub open spec fn rpc_error_code(e: RpcError) -> i32 {
    match e {
        RpcError::NoError => 0,
        RpcError::ForwardToLeader => 1,
        RpcError::ChangeMembership => 2,
        RpcError::Fatal => 3,
        RpcError::Network => 4,
        RpcError::SnapshotMismatch => 5,
    }
}

/// The name of each error code in the protocol definition.
pub open spec fn rpc_error_name(e: RpcError) -> Seq<char> {
    match e {
        RpcError::NoError => "None"@,
        RpcError::ForwardToLeader => "ForwardToLeader"@,
        RpcError::ChangeMembership => "ChangeMembership"@,
        RpcError::Fatal => "Fatal"@,
        RpcError::Network => "Network"@,
        RpcError::SnapshotMismatch => "SnapshotMismatch"@,
    }
}

/// The error code that a number stands for, if any.
pub open spec fn rpc_error_of_code(c: i32) -> Option<RpcError> {
    if c == 0 {
        Some(RpcError::NoError)
    } else if c == 1 {
        Some(RpcError::ForwardToLeader)
    } else if c == 2 {
        Some(RpcError::ChangeMembership)
    } else if c == 3 {
        Some(RpcError::Fatal)
    } else if c == 4 {
        Some(RpcError::Network)
    } else if c == 5 {
        Some(RpcError::SnapshotMismatch)
    } else {
        None
    }
}

impl RpcError {
    /// String value of the enum field names used in the protocol definition.
    pub fn as_str_name(&self) -> (name: &'static str)
        ensures
            name@ == rpc_error_name(*self),
    {
        match self {
            RpcError::NoError => "None",
            RpcError::ForwardToLeader => "ForwardToLeader",
            RpcError::ChangeMembership => "ChangeMembership",
            RpcError::Fatal => "Fatal",
            RpcError::Network => "Network",
            RpcError::SnapshotMismatch => "SnapshotMismatch",
        }
    }

    /// The number that stands for this code on the wire.
    pub fn code(&self) -> (c: i32)
        ensures
            c == rpc_error_code(*self),
    {
        match self {
            RpcError::NoError => 0,
            RpcError::ForwardToLeader => 1,
            RpcError::ChangeMembership => 2,
            RpcError::Fatal => 3,
            RpcError::Network => 4,
            RpcError::SnapshotMismatch => 5,
        }
    }

    /// The code that a number on the wire stands for, if any.
    pub fn from_code(c: i32) -> (e: Option<RpcError>)
        ensures
            e == rpc_error_of_code(c),
    {
        if c == 0 {
            Some(RpcError::NoError)
        } else if c == 1 {
            Some(RpcError::ForwardToLeader)
        } else if c == 2 {
            Some(RpcError::ChangeMembership)
        } else if c == 3 {
            Some(RpcError::Fatal)
        } else if c == 4 {
            Some(RpcError::Network)
        } else if c == 5 {
            Some(RpcError::SnapshotMismatch)
        } else {
            None
        }
    }
}

/// Every error code is read back from its number, and no two codes share one.
pub proof fn lemma_rpc_error_code_roundtrip(e: RpcError, f: RpcError)
    ensures
        rpc_error_of_code(rpc_error_code(e)) == Some(e),
        rpc_error_code(e) == rpc_error_code(f) ==> e == f,
{
}

// ---------------------------------------------------------------------------
// Conversions between wire ids and consensus ids.

/// The wire form of a consensus log id.
pub open spec fn wire_log_id(id: RaftLogId) -> LogId {
    LogId { term: id.leader_id.term, node_id: id.leader_id.node_id, index: id.index }
}

/// The consensus log id that a wire log id stands for.
pub open spec fn raft_log_id(id: LogId) -> RaftLogId {
    RaftLogId { leader_id: RaftLeaderId { term: id.term, node_id: id.node_id }, index: id.index }
}

/// The wire form of a consensus vote.
pub open spec fn wire_vote(v: RaftVote) -> Vote {
    Vote { term: v.leader_id.term, node_id: v.leader_id.node_id, committed: v.committed }
}

/// The consensus vote that a wire vote stands for.
pub open spec fn raft_vote(v: Vote) -> RaftVote {
    RaftVote { leader_id: RaftLeaderId { term: v.term, node_id: v.node_id }, committed: v.committed }
}

pub open spec fn wire_log_id_opt(id: Option<RaftLogId>) -> Option<LogId> {
    match id {
        Some(i) => Some(wire_log_id(i)),
        None => None,
    }
}

pub open spec fn raft_log_id_opt(id: Option<LogId>) -> Option<RaftLogId> {
    match id {
        Some(i) => Some(raft_log_id(i)),
        None => None,
    }
}

impl From<LogId> for RaftLogId {
    fn from(id: LogId) -> (r: RaftLogId) {
        RaftLogId { leader_id: RaftLeaderId { term: id.term, node_id: id.node_id }, index: id.index }
    }
}

impl vstd::std_specs::convert::FromSpecImpl<LogId> for RaftLogId {
    open spec fn obeys_from_spec() -> bool {
        true
    }

    open spec fn from_spec(id: LogId) -> RaftLogId {
        raft_log_id(id)
    }
}

impl From<RaftLogId> for LogId {
    fn from(id: RaftLogId) -> (r: LogId) {
        LogId { term: id.leader_id.term, node_id: id.leader_id.node_id, index: id.index }
    }
}

impl vstd::std_specs::convert::FromSpecImpl<RaftLogId> for LogId {
    open spec fn obeys_from_spec() -> bool {
        true
    }

    open spec fn from_spec(id: RaftLogId) -> LogId {
        wire_log_id(id)
    }
}

impl From<Vote> for RaftVote {
    fn from(v: Vote) -> (r: RaftVote) {
        RaftVote { leader_id: RaftLeaderId { term: v.term, node_id: v.node_id }, committed: v.committed }
    }
}

impl vstd::std_specs::convert::FromSpecImpl<Vote> for RaftVote {
    open spec fn obeys_from_spec() -> bool {
        true
    }

    open spec fn from_spec(v: Vote) -> RaftVote {
        raft_vote(v)
    }
}

impl From<RaftVote> for Vote {
    fn from(v: RaftVote) -> (r: Vote) {
        Vote { term: v.leader_id.term, node_id: v.leader_id.node_id, committed: v.committed }
    }
}

impl vstd::std_specs::convert::FromSpecImpl<RaftVote> for Vote {
    open spec fn obeys_from_spec() -> bool {
        true
    }

    open spec fn from_spec(v: RaftVote) -> Vote {
        wire_vote(v)
    }
}

fn to_wire_log_id_opt(id: Option<RaftLogId>) -> (r: Option<LogId>)
    ensures
        r == wire_log_id_opt(id),
{
    match id {
        Some(i) => Some(LogId::from(i)),
        None => None,
    }
}

fn to_raft_log_id_opt(id: Option<LogId>) -> (r: Option<RaftLogId>)
    ensures
        r == raft_log_id_opt(id),
{
    match id {
        Some(i) => Some(RaftLogId::from(i)),
        None => None,
    }
}

/// A log id sent over the wire arrives as the same log id, and a wire id read
/// and sent again is unchanged.
pub proof fn lemma_log_id_roundtrip(id: RaftLogId, w: LogId)
    ensures
        raft_log_id(wire_log_id(id)) == id,
        wire_log_id(raft_log_id(w)) == w,
{
}

/// A vote sent over the wire arrives as the same vote, and back.
pub proof fn lemma_vote_roundtrip(v: RaftVote, w: Vote)
    ensures
        raft_vote(wire_vote(v)) == v,
        wire_vote(raft_vote(w)) == w,
{
}

// ---------------------------------------------------------------------------
// Errors that a call to another node ends in.

/// The status that a failed gRPC call reports.
#[verifier::external_type_specification]
#[verifier::external_body]
pub struct ExStatus(tonic::Status);

/// The error that MessagePack encoding reports.
#[verifier::external_type_specification]
#[verifier::external_body]
pub struct ExEncodeError(rmp_serde::encode::Error);

/// The error that MessagePack decoding reports.
#[verifier::external_type_specification]
#[verifier::external_body]
pub struct ExDecodeError(rmp_serde::decode::Error);

/// Why a call to another node failed.
pub enum CallError {
    /// The transport or the remote service failed.
    NetworkError(tonic::Status),
    /// The request could not be encoded.
    SerializationError(rmp_serde::encode::Error),
    /// The reply could not be decoded.
    DeserializationError(rmp_serde::decode::Error),
    /// The callee is not the leader; the request must go to this node.
    UpdateLeader(Node),
    /// No node accepted the request as leader.
    UnknownLeader,
}

// ---------------------------------------------------------------------------
// Replies built by the serving node.

/// The reply to a call that succeeded, carrying the serialized result.
pub open spec fn is_response(
    resp: RpcResponse,
    code: RpcError,
    message: Seq<char>,
    data: Seq<u8>,
) -> bool {
    &&& resp.error == rpc_error_code(code)
    &&& resp.leader is None
    &&& resp.message@ == message
    &&& resp.additional_data@ == data
}

fn response(code: RpcError, message: &str, data: Vec<u8>) -> (resp: RpcResponse)
    ensures
        is_response(resp, code, message@, data@),
{
    RpcResponse { error: code.code(), leader: None, message: String::from_str(message), additional_data: data }
}

impl RpcResponse {
    /// The reply to a call that succeeded, carrying the serialized result.
    pub fn ok(data: Vec<u8>) -> (resp: RpcResponse)
        ensures
            is_response(resp, RpcError::NoError, "Request OK"@, data@),
    {
        response(RpcError::NoError, "Request OK", data)
    }
}

/// The reply telling the caller to turn to the leader; it names the leader
/// only when both its id and its address are known.
pub open spec fn is_forward_response(resp: RpcResponse, leader_id: Option<NodeId>, leader_addr: Option<String>) -> bool {
    &&& resp.error == rpc_error_code(RpcError::ForwardToLeader)
    &&& resp.message@ == "Forward request to leader node."@
    &&& resp.additional_data@.len() == 0
    &&& match (leader_id, leader_addr) {
        (Some(id), Some(addr)) => resp.leader matches Some(n) && n.id == id && n.rpc_addr == addr,
        _ => resp.leader is None,
    }
}

/// The reply telling the caller to turn to the leader.
pub fn forward_to_leader_resp(leader_id: Option<NodeId>, leader_addr: Option<String>) -> (resp: RpcResponse)
    ensures
        is_forward_response(resp, leader_id, leader_addr),
{
    let leader = match (leader_id, leader_addr) {
        (Some(id), Some(addr)) => Some(Node { id, rpc_addr: addr }),
        _ => None,
    };
    RpcResponse {
        error: RpcError::ForwardToLeader.code(),
        leader,
        message: String::from_str("Forward request to leader node."),
        additional_data: Vec::new(),
    }
}

/// The reply to a refused membership change, carrying the serialized reason.
pub fn change_membership_resp(data: Vec<u8>) -> (resp: RpcResponse)
    ensures
        is_response(resp, RpcError::ChangeMembership, "Change the Raft membership."@, data@),
{
    response(RpcError::ChangeMembership, "Change the Raft membership.", data)
}

/// The reply to a call that failed on the network, carrying the serialized error.
pub fn network_error_resp(data: Vec<u8>) -> (resp: RpcResponse)
    ensures
        is_response(resp, RpcError::Network, "A network error has occurred."@, data@),
{
    response(RpcError::Network, "A network error has occurred.", data)
}

/// The reply to a call that hit a fatal error, carrying the serialized error.
pub fn fatal_resp(data: Vec<u8>) -> (resp: RpcResponse)
    ensures
        is_response(resp, RpcError::Fatal, "Fatal error has occurred."@, data@),
{
    response(RpcError::Fatal, "Fatal error has occurred.", data)
}

/// The reply to a snapshot that does not match, carrying the serialized mismatch.
pub fn snapshot_mismatch_resp(data: Vec<u8>) -> (resp: RpcResponse)
    ensures
        is_response(resp, RpcError::SnapshotMismatch, "The provided snapshot does not match."@, data@),
{
    response(RpcError::SnapshotMismatch, "The provided snapshot does not match.", data)
}

// ---------------------------------------------------------------------------
// Requests built by the calling node, and read by the serving one.

/// Builds the append-entries request from the consensus request and its
/// serialized entries.
pub fn append_entries_request(
    vote: RaftVote,
    prev_log_id: Option<RaftLogId>,
    entries: Vec<u8>,
    leader_commit: Option<RaftLogId>,
) -> (req: AppendEntriesRequest)
    ensures
        req.vote == Some(wire_vote(vote)),
        req.prev_log_id == wire_log_id_opt(prev_log_id),
        req.entries@ == entries@,
        req.leader_commit == wire_log_id_opt(leader_commit),
{
    AppendEntriesRequest {
        vote: Some(Vote::from(vote)),
        prev_log_id: to_wire_log_id_opt(prev_log_id),
        entries,
        leader_commit: to_wire_log_id_opt(leader_commit),
    }
}

/// Builds the install-snapshot request from the consensus request and its
/// serialized metadata.
pub fn install_snapshot_request(
    vote: RaftVote,
    meta: Vec<u8>,
    offset: u64,
    data: Vec<u8>,
    done: bool,
) -> (req: InstallSnapshotRequest)
    ensures
        req.vote == Some(wire_vote(vote)),
        req.meta@ == meta@,
        req.offset == offset,
        req.data@ == data@,
        req.done == done,
{
    InstallSnapshotRequest { vote: Some(Vote::from(vote)), meta, offset, data, done }
}

/// Builds the vote request from the consensus request.
pub fn vote_request(vote: RaftVote, last_log_id: Option<RaftLogId>) -> (req: VoteRequest)
    ensures
        req.vote == Some(wire_vote(vote)),
        req.last_log_id == wire_log_id_opt(last_log_id),
{
    VoteRequest { vote: Some(Vote::from(vote)), last_log_id: to_wire_log_id_opt(last_log_id) }
}

/// Builds the request that asks the leader to run a statement.
pub fn mutate_request(sql: String, parameters: Vec<u8>) -> (req: MutateRequest)
    ensures
        req.sql == sql,
        req.parameters@ == parameters@,
{
    MutateRequest { sql, parameters }
}

/// Builds the request that adds a node as a learner.
pub fn add_learner_request(node_id: NodeId, addr: String) -> (req: Node)
    ensures
        req.id == node_id,
        req.rpc_addr == addr,
{
    Node { id: node_id, rpc_addr: addr }
}

/// Builds the request that changes the voting members.
pub fn change_membership_request(members: Vec<NodeId>) -> (req: ChangeMembershipRequest)
    ensures
        req.members@ == members@,
{
    ChangeMembershipRequest { members }
}

impl AppendEntriesRequest {
    /// The consensus-level vote and log ids of a received request; the
    /// serialized entries stay in the request.
    pub fn raft_ids(&self) -> (r: (RaftVote, Option<RaftLogId>, Option<RaftLogId>))
        requires
            self.vote is Some,
        ensures
            r.0 == raft_vote(self.vote->Some_0),
            r.1 == raft_log_id_opt(self.prev_log_id),
            r.2 == raft_log_id_opt(self.leader_commit),
    {
        let vote = match self.vote {
            Some(v) => RaftVote::from(v),
            None => RaftVote::from(Vote { term: 0, node_id: 0, committed: false }),
        };
        (vote, to_raft_log_id_opt(self.prev_log_id), to_raft_log_id_opt(self.leader_commit))
    }
}

impl InstallSnapshotRequest {
    /// The consensus-level vote of a received request.
    pub fn raft_vote(&self) -> (v: RaftVote)
        requires
            self.vote is Some,
        ensures
            v == raft_vote(self.vote->Some_0),
    {
        match self.vote {
            Some(v) => RaftVote::from(v),
            None => RaftVote::from(Vote { term: 0, node_id: 0, committed: false }),
        }
    }
}

impl VoteRequest {
    /// The consensus-level vote and last log id of a received request.
    pub fn raft_parts(&self) -> (r: (RaftVote, Option<RaftLogId>))
        requires
            self.vote is Some,
        ensures
            r.0 == raft_vote(self.vote->Some_0),
            r.1 == raft_log_id_opt(self.last_log_id),
    {
        let vote = match self.vote {
            Some(v) => RaftVote::from(v),
            None => RaftVote::from(Vote { term: 0, node_id: 0, committed: false }),
        };
        (vote, to_raft_log_id_opt(self.last_log_id))
    }
}

/// A vote request read by the serving node carries the vote and last log id
/// that the calling node put in it.
pub proof fn lemma_vote_request_roundtrip(vote: RaftVote, last_log_id: Option<RaftLogId>)
    ensures
        raft_vote(wire_vote(vote)) == vote,
        raft_log_id_opt(wire_log_id_opt(last_log_id)) == last_log_id,
{
}

/// The outcome of a mutation call, read from the leader's reply: a reply that
/// asks to forward names the new leader; every other reply counts as success.
pub open spec fn mutate_outcome_spec(resp: RpcResponse) -> Result<(), CallError> {
    if resp.error == rpc_error_code(RpcError::ForwardToLeader) {
        Err(CallError::UpdateLeader(resp.leader->Some_0))
    } else {
        Ok(())
    }
}

/// Reads the reply to a mutation call.
pub fn mutate_outcome(resp: RpcResponse) -> (r: Result<(), CallError>)
    requires
        resp.error == rpc_error_code(RpcError::ForwardToLeader) ==> resp.leader is Some,
    ensures
        r == mutate_outcome_spec(resp),
{
    if resp.error == RpcError::ForwardToLeader.code() {
        match resp.leader {
            Some(leader) => Err(CallError::UpdateLeader(leader)),
            None => Err(CallError::UnknownLeader),
        }
    } else {
        Ok(())
    }
}

/// Why the consensus layer refused or failed a call, with the serialized detail
/// that the reply carries.
pub enum RaftFailure {
    /// The node is not the leader; the leader's id and address, when known.
    ForwardToLeader { leader_id: Option<NodeId>, leader_addr: Option<String> },
    /// The membership change was refused.
    ChangeMembership(Vec<u8>),
    /// The leader could not reach the other nodes.
    Network(Vec<u8>),
    /// The consensus layer stopped on a fatal error.
    Fatal(Vec<u8>),
    /// The snapshot does not match the one being installed.
    SnapshotMismatch(Vec<u8>),
}

/// The reply that each failure is answered with.
pub open spec fn is_failure_response(resp: RpcResponse, failure: RaftFailure) -> bool {
    match failure {
        RaftFailure::ForwardToLeader { leader_id, leader_addr } => is_forward_response(resp, leader_id, leader_addr),
        RaftFailure::ChangeMembership(d) => is_response(resp, RpcError::ChangeMembership, "Change the Raft membership."@, d@),
        RaftFailure::Network(d) => is_response(resp, RpcError::Network, "A network error has occurred."@, d@),
        RaftFailure::Fatal(d) => is_response(resp, RpcError::Fatal, "Fatal error has occurred."@, d@),
        RaftFailure::SnapshotMismatch(d) => is_response(resp, RpcError::SnapshotMismatch, "The provided snapshot does not match."@, d@),
    }
}

/// Answers a failed call.
pub fn failure_response(failure: RaftFailure) -> (resp: RpcResponse)
    ensures
        is_failure_response(resp, failure),
{
    match failure {
        RaftFailure::ForwardToLeader { leader_id, leader_addr } => forward_to_leader_resp(leader_id, leader_addr),
        RaftFailure::ChangeMembership(d) => change_membership_resp(d),
        RaftFailure::Network(d) => network_error_resp(d),
        RaftFailure::Fatal(d) => fatal_resp(d),
        RaftFailure::SnapshotMismatch(d) => snapshot_mismatch_resp(d),
    }
}

/// A reply that names the leader to forward to is read by the calling node as
/// a redirection to that very node; any other reply built by the serving node
/// is read as success.
pub proof fn lemma_reply_read_back(resp: RpcResponse, failure: RaftFailure, id: NodeId, addr: String, data: Seq<u8>)
    ensures
        is_forward_response(resp, Some(id), Some(addr)) ==> ({
            let r = mutate_outcome_spec(resp);
            &&& r is Err
            &&& r->Err_0 matches CallError::UpdateLeader(n) && n.id == id && n.rpc_addr == addr
        }),
        is_failure_response(resp, failure) && !(failure is ForwardToLeader) ==> mutate_outcome_spec(resp) is Ok,
        is_response(resp, RpcError::NoError, "Request OK"@, data) ==> mutate_outcome_spec(resp) is Ok,
{
}

/// A wire id carries the entry's term, its leader's node id and its index, each
/// in the field of that name; a wire vote carries the vote's term, node id and
/// whether it is committed. Neither direction swaps or drops a field.
pub proof fn lemma_wire_fields(id: RaftLogId, w: LogId, v: RaftVote, wv: Vote)
    ensures
        wire_log_id(id).term == id.leader_id.term,
        wire_log_id(id).node_id == id.leader_id.node_id,
        wire_log_id(id).index == id.index,
        raft_log_id(w).leader_id.term == w.term,
        raft_log_id(w).leader_id.node_id == w.node_id,
        raft_log_id(w).index == w.index,
        wire_vote(v).term == v.leader_id.term,
        wire_vote(v).node_id == v.leader_id.node_id,
        wire_vote(v).committed == v.committed,
        raft_vote(wv).leader_id.term == wv.term,
        raft_vote(wv).leader_id.node_id == wv.node_id,
        raft_vote(wv).committed == wv.committed,
{
}

} // verus!
