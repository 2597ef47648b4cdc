//! The tables and statements of the stores, and the keys of the key-value table.
use vstd::prelude::*;

verus! {

/// The file, in the store's base folder, that holds the Raft log.
pub const LOG_DB_FILE: &'static str = "log.db";

/// The file, in the store's base folder, that holds the latest snapshot.
pub const SNAPSHOT_DB_FILE: &'static str = "snapshot.db";

/// The path that SQLite reads as a new in-memory database.
pub const IN_MEMORY_DB: &'static str = ":memory:";

pub const SNAPSHOT_META_KEY: &'static str = "snapshot_meta";

pub const LAST_MEMBERSHIP_KEY: &'static str = "last_membership";

pub const LAST_LOG_KEY: &'static str = "last_applied_log";

pub const VOTE_KEY: &'static str = "vote";

pub const SNAPSHOT_INDEX_KEY: &'static str = "snapshot_index";

pub const LAST_PURGED_ID_KEY: &'static str = "last_purged_id";

pub const REPLICAT_KV_TABLE: &'static str = "
    CREATE TABLE IF NOT EXISTS replicat_kv_states (
        key TEXT PRIMARY KEY,
        value
    );
";

pub const REPLICAT_RAFT_LOGS_TABLE: &'static str = "
    CREATE TABLE IF NOT EXISTS replicat_raft_logs (
        log_index BIGINT PRIMARY KEY,
        node_id BIGINT,
        term BIGINT,
        entry BLOB
    );
";

pub const REPLICAT_KV_SELECT_VALUE: &'static str = "SELECT value FROM replicat_kv_states WHERE key = ?;";

pub const REPLICAT_KV_UPSERT: &'static str = "
    INSERT INTO replicat_kv_states (key, value)
    VALUES (?, ?)
    ON CONFLICT(key) DO UPDATE SET
        value = excluded.value
    WHERE key = excluded.key;
";

pub const SNAPSHOT_INDEX_INCREMENT: &'static str = "UPDATE replicat_kv_states SET value = value + 1 WHERE key = ? RETURNING value;";

pub const SNAPSHOT_INDEX_CREATE: &'static str = "INSERT INTO replicat_kv_states (key, value) VALUES (?, 0)";

pub const LAST_LOG_ENTRY_SELECT: &'static str = "SELECT node_id, log_index, term FROM replicat_raft_logs ORDER BY log_index DESC LIMIT 1;";

pub const LOG_ENTRY_UPSERT: &'static str = "
    INSERT INTO replicat_raft_logs (node_id, log_index, term, entry)
    VALUES (?, ?, ?, ?)
    ON CONFLICT(log_index) DO UPDATE SET
        node_id = excluded.node_id,
        term = excluded.term,
        entry = excluded.entry
    WHERE log_index = excluded.log_index;
";

pub const DELETE_LOGS_SINCE: &'static str = "DELETE FROM replicat_raft_logs WHERE log_index >= ?;";

pub const DELETE_LOGS_UPTO: &'static str = "DELETE FROM replicat_raft_logs WHERE log_index <= ?";

pub const JOURNAL_MODE_WAL: &'static str = "pragma journal_mode = WAL;";

pub const SYNCHRONOUS_NORMAL: &'static str = "pragma synchronous = normal;";

pub const TEMP_STORE_MEMORY: &'static str = "pragma temp_store = memory;";

} // verus!
