//! The gRPC methods of the cluster service and the paths that name them.
use vstd::prelude::*;

verus! {

/// The name of the cluster service.
pub const SERVICE_NAME: &'static str = "rpc_models.ClusterRpc";

/// A method of the cluster service.
#[derive(Clone, Copy, Debug, PartialEq, Eq, Structural)]
pub enum RpcMethod {
    AppendEntries,
    InstallSnapshot,
    Vote,
    AddLearner,
    ChangeMembership,
    GetMetrics,
    MutateState,
}

/// The request path of each method.
pub open spec fn method_path(m: RpcMethod) -> Seq<char> {
    match m {
        RpcMethod::AppendEntries => "/rpc_models.ClusterRpc/append_entries"@,
        RpcMethod::InstallSnapshot => "/rpc_models.ClusterRpc/install_snapshot"@,
        RpcMethod::Vote => "/rpc_models.ClusterRpc/vote"@,
        RpcMethod::AddLearner => "/rpc_models.ClusterRpc/add_learner"@,
        RpcMethod::ChangeMembership => "/rpc_models.ClusterRpc/change_membership"@,
        RpcMethod::GetMetrics => "/rpc_models.ClusterRpc/get_metrics"@,
        RpcMethod::MutateState => "/rpc_models.ClusterRpc/mutate_state"@,
    }
}

impl RpcMethod {
    /// The request path of the method.
    pub fn path(&self) -> (p: &'static str)
        ensures
            p@ == method_path(*self),
    {
        match self {
            RpcMethod::AppendEntries => "/rpc_models.ClusterRpc/append_entries",
            RpcMethod::InstallSnapshot => "/rpc_models.ClusterRpc/install_snapshot",
            RpcMethod::Vote => "/rpc_models.ClusterRpc/vote",
            RpcMethod::AddLearner => "/rpc_models.ClusterRpc/add_learner",
            RpcMethod::ChangeMembership => "/rpc_models.ClusterRpc/change_membership",
            RpcMethod::GetMetrics => "/rpc_models.ClusterRpc/get_metrics",
            RpcMethod::MutateState => "/rpc_models.ClusterRpc/mutate_state",
        }
    }
}

/// The method that a request path names, if any.
pub open spec fn route_spec(path: Seq<char>) -> Option<RpcMethod> {
    if path == method_path(RpcMethod::AppendEntries) {
        Some(RpcMethod::AppendEntries)
    } else if path == method_path(RpcMethod::InstallSnapshot) {
        Some(RpcMethod::InstallSnapshot)
    } else if path == method_path(RpcMethod::Vote) {
        Some(RpcMethod::Vote)
    } else if path == method_path(RpcMethod::AddLearner) {
        Some(RpcMethod::AddLearner)
    } else if path == method_path(RpcMethod::ChangeMembership) {
        Some(RpcMethod::ChangeMembership)
    } else if path == method_path(RpcMethod::GetMetrics) {
        Some(RpcMethod::GetMetrics)
    } else if path == method_path(RpcMethod::MutateState) {
        Some(RpcMethod::MutateState)
    } else {
        None
    }
}

fn path_is(path: &String, m: RpcMethod) -> (b: bool)
    ensures
        b == (path@ == method_path(m)),
{
    *path == String::from_str(m.path())
}

/// Finds the method that a request path names; the service answers any other
/// path with the gRPC status "unimplemented".
pub fn route(path: &str) -> (m: Option<RpcMethod>)
    ensures
        m == route_spec(path@),
{
    let p = String::from_str(path);
    if path_is(&p, RpcMethod::AppendEntries) {
        Some(RpcMethod::AppendEntries)
    } else if path_is(&p, RpcMethod::InstallSnapshot) {
        Some(RpcMethod::InstallSnapshot)
    } else if path_is(&p, RpcMethod::Vote) {
        Some(RpcMethod::Vote)
    } else if path_is(&p, RpcMethod::AddLearner) {
        Some(RpcMethod::AddLearner)
    } else if path_is(&p, RpcMethod::ChangeMembership) {
        Some(RpcMethod::ChangeMembership)
    } else if path_is(&p, RpcMethod::GetMetrics) {
        Some(RpcMethod::GetMetrics)
    } else if path_is(&p, RpcMethod::MutateState) {
        Some(RpcMethod::MutateState)
    } else {
        None
    }
}

/// Every method is reached by its own path, and by no other method's path.
pub proof fn lemma_route_finds_method(m: RpcMethod)
    ensures
        route_spec(method_path(m)) == Some(m),
{
    reveal_strlit("/rpc_models.ClusterRpc/append_entries");
    reveal_strlit("/rpc_models.ClusterRpc/install_snapshot");
    reveal_strlit("/rpc_models.ClusterRpc/vote");
    reveal_strlit("/rpc_models.ClusterRpc/add_learner");
    reveal_strlit("/rpc_models.ClusterRpc/change_membership");
    reveal_strlit("/rpc_models.ClusterRpc/get_metrics");
    reveal_strlit("/rpc_models.ClusterRpc/mutate_state");
    let p = method_path(m);
    let ae = method_path(RpcMethod::AppendEntries);
    let is = method_path(RpcMethod::InstallSnapshot);
    let vo = method_path(RpcMethod::Vote);
    let al = method_path(RpcMethod::AddLearner);
    let cm = method_path(RpcMethod::ChangeMembership);
    let gm = method_path(RpcMethod::GetMetrics);
    let ms = method_path(RpcMethod::MutateState);
    // The paths differ in length or in the first letter of the method name.
    assert(ae.len() == 37 && is.len() == 39 && vo.len() == 27 && al.len() == 34);
    assert(cm.len() == 40 && gm.len() == 34 && ms.len() == 35);
    assert(al[23] == 'a' && gm[23] == 'g');
    match m {
        RpcMethod::AppendEntries => {},
        RpcMethod::InstallSnapshot => { assert(p != ae); },
        RpcMethod::Vote => { assert(p != ae && p != is); },
        RpcMethod::AddLearner => { assert(p != ae && p != is && p != vo); },
        RpcMethod::ChangeMembership => { assert(p != ae && p != is && p != vo && p != al); },
        RpcMethod::GetMetrics => { assert(p != ae && p != is && p != vo && p != al && p != cm); },
        RpcMethod::MutateState => {
            assert(p != ae && p != is && p != vo && p != al && p != cm && p != gm);
        },
    }
}

} // verus!
