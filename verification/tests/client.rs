use replicat::client::{RetryBudget, RetryStep};
use replicat::network::ClientCache;
use replicat::rpc::{CallError, Node};

fn update_leader(id: u64, addr: &str) -> Result<(), CallError> {
    Err(CallError::UpdateLeader(Node { id, rpc_addr: addr.to_string() }))
}

#[test]
fn retry_done_on_success() {
    let mut b = RetryBudget::new();
    assert!(matches!(b.on_result(Ok(())), RetryStep::Done));
}

#[test]
fn retry_redirects_to_named_leader() {
    let mut b = RetryBudget::new();
    match b.on_result(update_leader(2, "n2:9000")) {
        RetryStep::Redirect(t) => {
            assert_eq!(t.node_id, 2);
            assert_eq!(t.addr, "n2:9000");
        },
        _ => panic!("expected a redirection"),
    }
}

#[test]
fn retry_gives_up_on_third_redirection() {
    let mut b = RetryBudget::new();
    assert!(matches!(b.on_result(update_leader(1, "a")), RetryStep::Redirect(_)));
    assert!(matches!(b.on_result(update_leader(2, "b")), RetryStep::Redirect(_)));
    match b.on_result(update_leader(3, "c")) {
        RetryStep::Fail { error: CallError::UnknownLeader, leader: Some(t) } => {
            assert_eq!(t.node_id, 3);
            assert_eq!(t.addr, "c");
        },
        _ => panic!("expected to give up, recording the last leader"),
    }
}

#[test]
fn retry_passes_other_errors_through() {
    let mut b = RetryBudget::new();
    match b.on_result(Err(CallError::NetworkError(tonic::Status::unavailable("down")))) {
        RetryStep::Fail { error: CallError::NetworkError(s), leader: None } => assert_eq!(s.message(), "down"),
        _ => panic!("expected the network error"),
    }
}

#[test]
fn cache_remembers_connections() {
    let mut cache: ClientCache<u32> = ClientCache::new();
    assert!(cache.cached(1).is_none());
    cache.remember(1, "a:1".to_string(), 10);
    cache.remember(2, "b:2".to_string(), 20);
    assert_eq!(cache.cached(1), Some(&10));
    assert_eq!(cache.cached(2), Some(&20));
    cache.remember(1, "a:2".to_string(), 11);
    assert_eq!(cache.cached(1), Some(&11));
    assert!(cache.cached(3).is_none());
}

#[test]
fn endpoint_uri_of_address() {
    let uri = replicat::network::endpoint_uri("127.0.0.1:5000").expect("valid address");
    assert_eq!(uri.to_string(), "http://127.0.0.1:5000/");
    assert_eq!(uri.host(), Some("127.0.0.1"));
    assert_eq!(uri.port_u16(), Some(5000));
}

#[test]
fn endpoint_uri_rejects_bad_address() {
    assert!(replicat::network::endpoint_uri("bad address").is_err());
}

#[test]
fn get_or_connect_reuses_kept_connection() {
    let mut cache: ClientCache<u32> = ClientCache::new();
    let mut calls = 0;
    let r: Result<(), String> = cache.get_or_connect(1, "a:1", |a| {
        calls += 1;
        assert_eq!(a, "a:1");
        Ok(10)
    });
    assert!(r.is_ok());
    assert_eq!(calls, 1);
    assert_eq!(cache.cached(1), Some(&10));
    // A kept connection is reused, even for another address.
    let r: Result<(), String> = cache.get_or_connect(1, "a:2", |_| panic!("must not connect"));
    assert!(r.is_ok());
    assert_eq!(cache.cached(1), Some(&10));
}

#[test]
fn get_or_connect_keeps_nothing_on_failure() {
    let mut cache: ClientCache<u32> = ClientCache::new();
    let r: Result<(), String> = cache.get_or_connect(2, "bad", |_| Err("invalid uri".to_string()));
    assert_eq!(r, Err("invalid uri".to_string()));
    assert!(cache.cached(2).is_none());
}
