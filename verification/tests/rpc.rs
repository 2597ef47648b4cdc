use replicat::ids::{RaftLeaderId, RaftLogId, RaftVote};
use replicat::rpc::{
    add_learner_request, append_entries_request, change_membership_request, change_membership_resp,
    failure_response, fatal_resp, forward_to_leader_resp, install_snapshot_request, mutate_outcome,
    mutate_request, network_error_resp, snapshot_mismatch_resp, vote_request, CallError, LogId,
    RaftFailure, RpcError, RpcResponse, Vote,
};

fn raft_log_id(term: u64, node_id: u64, index: u64) -> RaftLogId {
    RaftLogId { leader_id: RaftLeaderId { term, node_id }, index }
}

fn raft_vote(term: u64, node_id: u64, committed: bool) -> RaftVote {
    RaftVote { leader_id: RaftLeaderId { term, node_id }, committed }
}

const ALL_CODES: [RpcError; 6] = [
    RpcError::NoError,
    RpcError::ForwardToLeader,
    RpcError::ChangeMembership,
    RpcError::Fatal,
    RpcError::Network,
    RpcError::SnapshotMismatch,
];

#[test]
fn rpc_error_names() {
    let names: Vec<&str> = ALL_CODES.iter().map(|e| e.as_str_name()).collect();
    assert_eq!(names, vec!["None", "ForwardToLeader", "ChangeMembership", "Fatal", "Network", "SnapshotMismatch"]);
}

#[test]
fn rpc_error_codes_roundtrip() {
    for (i, e) in ALL_CODES.iter().enumerate() {
        assert_eq!(e.code(), i as i32);
        assert_eq!(RpcError::from_code(e.code()), Some(*e));
    }
    assert_eq!(RpcError::from_code(6), None);
    assert_eq!(RpcError::from_code(-1), None);
}

#[test]
fn log_id_wire_roundtrip() {
    let id = raft_log_id(3, 7, 42);
    let wire = LogId::from(id);
    assert_eq!(wire, LogId { term: 3, node_id: 7, index: 42 });
    assert_eq!(RaftLogId::from(wire), id);
}

#[test]
fn vote_wire_roundtrip() {
    let v = raft_vote(5, 2, true);
    let wire = Vote::from(v);
    assert_eq!(wire, Vote { term: 5, node_id: 2, committed: true });
    assert_eq!(RaftVote::from(wire), v);
}

#[test]
fn ok_response_carries_data() {
    let r = RpcResponse::ok(vec![1, 2, 3]);
    assert_eq!(r.error, 0);
    assert!(r.leader.is_none());
    assert_eq!(r.message, "Request OK");
    assert_eq!(r.additional_data, vec![1, 2, 3]);
}

#[test]
fn error_responses_carry_code_and_message() {
    let r = change_membership_resp(vec![9]);
    assert_eq!((r.error, r.message.as_str(), r.additional_data.clone()), (2, "Change the Raft membership.", vec![9]));
    let r = fatal_resp(vec![8]);
    assert_eq!((r.error, r.message.as_str(), r.additional_data.clone()), (3, "Fatal error has occurred.", vec![8]));
    let r = network_error_resp(vec![7]);
    assert_eq!((r.error, r.message.as_str(), r.additional_data.clone()), (4, "A network error has occurred.", vec![7]));
    let r = snapshot_mismatch_resp(vec![6]);
    assert_eq!(
        (r.error, r.message.as_str(), r.additional_data.clone()),
        (5, "The provided snapshot does not match.", vec![6])
    );
    assert!(r.leader.is_none());
}

#[test]
fn forward_response_names_leader_when_known() {
    let r = forward_to_leader_resp(Some(4), Some("10.0.0.4:5000".to_string()));
    assert_eq!(r.error, 1);
    assert_eq!(r.message, "Forward request to leader node.");
    assert!(r.additional_data.is_empty());
    let n = r.leader.expect("leader");
    assert_eq!(n.id, 4);
    assert_eq!(n.rpc_addr, "10.0.0.4:5000");
}

#[test]
fn forward_response_without_leader() {
    assert!(forward_to_leader_resp(Some(4), None).leader.is_none());
    assert!(forward_to_leader_resp(None, Some("a".to_string())).leader.is_none());
    assert!(forward_to_leader_resp(None, None).leader.is_none());
}

#[test]
fn failure_response_per_kind() {
    assert_eq!(failure_response(RaftFailure::Fatal(vec![1])).error, 3);
    assert_eq!(failure_response(RaftFailure::Network(vec![1])).error, 4);
    assert_eq!(failure_response(RaftFailure::ChangeMembership(vec![1])).error, 2);
    assert_eq!(failure_response(RaftFailure::SnapshotMismatch(vec![1])).error, 5);
    let r = failure_response(RaftFailure::ForwardToLeader { leader_id: Some(2), leader_addr: Some("b".to_string()) });
    assert_eq!(r.error, 1);
    assert_eq!(r.leader.unwrap().id, 2);
}

#[test]
fn mutate_outcome_follows_forward() {
    let r = forward_to_leader_resp(Some(9), Some("host:1".to_string()));
    match mutate_outcome(r) {
        Err(CallError::UpdateLeader(n)) => {
            assert_eq!(n.id, 9);
            assert_eq!(n.rpc_addr, "host:1");
        },
        _ => panic!("expected a redirection"),
    }
}

#[test]
fn mutate_outcome_other_replies_succeed() {
    assert!(mutate_outcome(RpcResponse::ok(vec![])).is_ok());
    assert!(mutate_outcome(fatal_resp(vec![])).is_ok());
    assert!(mutate_outcome(network_error_resp(vec![])).is_ok());
}

#[test]
fn requests_carry_wire_ids() {
    let vote = raft_vote(2, 1, false);
    let req = append_entries_request(vote, Some(raft_log_id(1, 1, 4)), vec![5, 6], None);
    assert_eq!(req.vote, Some(Vote { term: 2, node_id: 1, committed: false }));
    assert_eq!(req.prev_log_id, Some(LogId { term: 1, node_id: 1, index: 4 }));
    assert_eq!(req.entries, vec![5, 6]);
    assert_eq!(req.leader_commit, None);
    let (v, prev, commit) = req.raft_ids();
    assert_eq!(v, vote);
    assert_eq!(prev, Some(raft_log_id(1, 1, 4)));
    assert_eq!(commit, None);

    let req = vote_request(vote, Some(raft_log_id(2, 1, 9)));
    assert_eq!(req.raft_parts(), (vote, Some(raft_log_id(2, 1, 9))));

    let req = install_snapshot_request(vote, vec![1], 10, vec![2, 3], true);
    assert_eq!(req.raft_vote(), vote);
    assert_eq!((req.meta.clone(), req.offset, req.data.clone(), req.done), (vec![1], 10, vec![2, 3], true));

    let req = mutate_request("DELETE FROM t".to_string(), vec![0x90]);
    assert_eq!(req.sql, "DELETE FROM t");
    assert_eq!(req.parameters, vec![0x90]);

    let req = add_learner_request(3, "n3:1".to_string());
    assert_eq!((req.id, req.rpc_addr.as_str()), (3, "n3:1"));

    let req = change_membership_request(vec![1, 2, 3]);
    assert_eq!(req.members, vec![1, 2, 3]);
}
