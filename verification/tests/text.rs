use replicat::decimal::push_decimal;
use replicat::ids::{RaftLeaderId, RaftLogId};
use replicat::query::{logs_query, RangeBound};
use replicat::snapshot::{snapshot_id, snapshot_index};

fn decimal_of(n: u64) -> String {
    let mut s = String::new();
    push_decimal(&mut s, n);
    s
}

fn log_id(term: u64, node_id: u64, index: u64) -> RaftLogId {
    RaftLogId { leader_id: RaftLeaderId { term, node_id }, index }
}

#[test]
fn decimal_matches_std_formatting() {
    let samples = [0u64, 1, 7, 9, 10, 11, 99, 100, 1234567890, 9223372036854775807, u64::MAX];
    for n in samples {
        assert_eq!(decimal_of(n), n.to_string());
    }
    let mut n: u64 = 1;
    while n < u64::MAX / 3 {
        assert_eq!(decimal_of(n), n.to_string());
        assert_eq!(decimal_of(n - 1), (n - 1).to_string());
        n = n * 3;
    }
}

#[test]
fn decimal_appends_to_existing_text() {
    let mut s = String::from("index=");
    push_decimal(&mut s, 42);
    assert_eq!(s, "index=42");
}

#[test]
fn logs_query_included_and_excluded() {
    assert_eq!(
        logs_query(RangeBound::Included(3), RangeBound::Excluded(10)),
        "SELECT entry FROM replicat_raft_logs WHERE log_index >= 3 AND log_index <= 9;"
    );
    assert_eq!(
        logs_query(RangeBound::Excluded(5), RangeBound::Included(8)),
        "SELECT entry FROM replicat_raft_logs WHERE log_index >= 6 AND log_index <= 8;"
    );
}

#[test]
fn logs_query_unbounded() {
    assert_eq!(
        logs_query(RangeBound::Unbounded, RangeBound::Unbounded),
        "SELECT entry FROM replicat_raft_logs WHERE log_index >= 0 AND log_index <= 9223372036854775807;"
    );
    assert_eq!(
        logs_query(RangeBound::Unbounded, RangeBound::Included(0)),
        "SELECT entry FROM replicat_raft_logs WHERE log_index >= 0 AND log_index <= 0;"
    );
}

#[test]
fn logs_query_covers_the_same_indexes_as_the_range() {
    // The range 4..=6 selects 4, 5 and 6 and nothing else.
    let range = 4u64..=6;
    let q = logs_query(RangeBound::Included(*range.start()), RangeBound::Included(*range.end()));
    assert!(q.contains(">= 4 AND log_index <= 6;"));
    for i in 0u64..10 {
        assert_eq!(range.contains(&i), 4 <= i && i <= 6);
    }
}

#[test]
fn snapshot_id_with_applied_log() {
    assert_eq!(snapshot_id(Some(log_id(2, 1, 10)), 3), "2-1-10-3");
    assert_eq!(snapshot_id(Some(log_id(0, 0, 0)), 0), "0-0-0-0");
}

#[test]
fn snapshot_id_without_applied_log() {
    assert_eq!(snapshot_id(None, 5), "--5");
    assert_eq!(snapshot_id(None, 0), "--0");
}

#[test]
fn snapshot_ids_of_distinct_snapshots_differ() {
    let ids = [
        snapshot_id(Some(log_id(1, 11, 2)), 3),
        snapshot_id(Some(log_id(11, 1, 2)), 3),
        snapshot_id(Some(log_id(1, 1, 12)), 3),
        snapshot_id(Some(log_id(1, 1, 2)), 13),
        snapshot_id(None, 3),
        snapshot_id(None, 13),
    ];
    for i in 0..ids.len() {
        for j in 0..ids.len() {
            if i != j {
                assert_ne!(ids[i], ids[j]);
            }
        }
    }
}

#[test]
fn snapshot_index_from_counter() {
    let r = snapshot_index(Some(4));
    assert_eq!(r.index, 4);
    assert!(!r.create_counter);
    let r = snapshot_index(None);
    assert_eq!(r.index, 0);
    assert!(r.create_counter);
    let r = snapshot_index(Some(-1));
    assert_eq!(r.index, u64::MAX);
    assert!(!r.create_counter);
}
