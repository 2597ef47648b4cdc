use replicat::route::{route, RpcMethod, SERVICE_NAME};

const ALL: [RpcMethod; 7] = [
    RpcMethod::AppendEntries,
    RpcMethod::InstallSnapshot,
    RpcMethod::Vote,
    RpcMethod::AddLearner,
    RpcMethod::ChangeMembership,
    RpcMethod::GetMetrics,
    RpcMethod::MutateState,
];

#[test]
fn method_paths() {
    assert_eq!(RpcMethod::AppendEntries.path(), "/rpc_models.ClusterRpc/append_entries");
    assert_eq!(RpcMethod::MutateState.path(), "/rpc_models.ClusterRpc/mutate_state");
    for m in ALL {
        assert!(m.path().starts_with(&format!("/{}/", SERVICE_NAME)));
    }
}

#[test]
fn route_finds_each_method() {
    for m in ALL {
        assert_eq!(route(m.path()), Some(m));
    }
}

#[test]
fn route_rejects_unknown_paths() {
    assert_eq!(route("/rpc_models.ClusterRpc/unknown"), None);
    assert_eq!(route(""), None);
    assert_eq!(route("/rpc_models.ClusterRpc/vote/"), None);
}
