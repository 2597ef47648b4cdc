use replicat::errors::{
    create_snapshot_err, log_read_error, log_write_error, store_read_error, store_write_error, ErrorSubject,
    ErrorVerb,
};
use replicat::ids::{log_id_from_row, log_state, RaftLeaderId, RaftLogId};
use replicat::memory::{deserialize_status, no_memory, serialized_len, snapshot_data, SqliteMemory};
use replicat::models::{Response, TransportableParam};

fn log_id(term: u64, node_id: u64, index: u64) -> RaftLogId {
    RaftLogId { leader_id: RaftLeaderId { term, node_id }, index }
}

#[test]
fn memory_copies_the_slice() {
    let buf = vec![1u8, 2, 3, 4];
    let m = SqliteMemory::from_slice(&buf).ok().expect("non-empty image");
    assert_eq!(m.as_slice(), &buf[..]);
    assert_eq!(m.len(), 4);
    assert_eq!(m.into_vec(), buf);
    let m = SqliteMemory::from_vec(vec![]);
    assert_eq!(m.len(), 0);
}

#[test]
fn memory_copies_empty_slice() {
    let m = SqliteMemory::from_slice(&[]).ok().expect("an empty image");
    assert_eq!(m.len(), 0);
    assert!(m.as_slice().is_empty());
}

#[test]
fn snapshot_data_of_image() {
    assert_eq!(snapshot_data(Some(SqliteMemory::from_vec(vec![7, 8]))), vec![7, 8]);
    assert!(snapshot_data(None).is_empty());
}

#[test]
fn serialized_len_checks() {
    assert_eq!(serialized_len(false, 4096).ok(), Some(4096));
    assert_eq!(serialized_len(false, 0).ok(), Some(0));
    let e = serialized_len(true, 4096).err().expect("null buffer");
    assert_eq!(e.code, 7);
    assert_eq!(e.message.as_deref(), Some("Failed to allocate buffer, is the system out of memory?"));
    assert!(serialized_len(false, -1).is_err());
}

#[test]
fn deserialize_status_checks() {
    assert!(deserialize_status(0).is_ok());
    let e = deserialize_status(1).err().expect("error status");
    assert_eq!(e.code, 1);
    assert_eq!(e.message.as_deref(), Some("Unable to create memory view for database"));
    assert_eq!(deserialize_status(7).err().map(|e| e.code), Some(7));
}

#[test]
fn no_memory_failure() {
    let e = no_memory();
    assert_eq!(e.code, 7);
}

#[test]
fn log_state_prefers_last_log() {
    let s = log_state(Some(log_id(2, 1, 8)), Some(log_id(1, 1, 3)));
    assert_eq!(s.last_log_id, Some(log_id(2, 1, 8)));
    assert_eq!(s.last_purged_log_id, Some(log_id(1, 1, 3)));
    let s = log_state(None, Some(log_id(1, 1, 3)));
    assert_eq!(s.last_log_id, Some(log_id(1, 1, 3)));
    let s = log_state(None, None);
    assert_eq!(s.last_log_id, None);
    assert_eq!(s.last_purged_log_id, None);
}

#[test]
fn log_id_from_row_columns() {
    assert_eq!(log_id_from_row(3, 17, 2), log_id(2, 3, 17));
    assert_eq!(log_id_from_row(-1, 0, 0), log_id(0, u64::MAX, 0));
}

#[test]
fn storage_failures_are_classified() {
    let f = log_read_error("x".to_string());
    assert_eq!((f.subject, f.verb, f.source.as_str()), (ErrorSubject::Logs, ErrorVerb::Read, "x"));
    let f = log_write_error("y".to_string());
    assert_eq!((f.subject, f.verb), (ErrorSubject::Logs, ErrorVerb::Write));
    let f = store_read_error("z".to_string());
    assert_eq!((f.subject, f.verb), (ErrorSubject::Store, ErrorVerb::Read));
    let f = store_write_error("w".to_string());
    assert_eq!((f.subject, f.verb), (ErrorSubject::Store, ErrorVerb::Write));
    let f = create_snapshot_err("v".to_string());
    assert_eq!((f.subject, f.verb, f.source.as_str()), (ErrorSubject::Unspecified, ErrorVerb::Write, "v"));
}

#[test]
fn params_from_values() {
    assert!(matches!(TransportableParam::from(true), TransportableParam::Bool(true)));
    assert!(matches!(TransportableParam::from(-5i64), TransportableParam::I64(-5)));
    assert!(matches!(TransportableParam::from(-5i32), TransportableParam::I64(-5)));
    match TransportableParam::from("cf8".to_string()) {
        TransportableParam::String(s) => assert_eq!(s, "cf8"),
        _ => panic!("expected a string"),
    }
    match TransportableParam::from(vec![1u8, 2]) {
        TransportableParam::Bytes(b) => assert_eq!(b, vec![1, 2]),
        _ => panic!("expected bytes"),
    }
    match TransportableParam::from_slice(&[3u8, 4]) {
        TransportableParam::Bytes(b) => assert_eq!(b, vec![3, 4]),
        _ => panic!("expected bytes"),
    }
    assert_eq!(Response::default(), Response {});
}
