//! The classification of storage failures reported to the consensus layer.
use vstd::prelude::*;

verus! {

/// What a failed storage operation was working on.
#[derive(Clone, Copy, Debug, PartialEq, Eq, Structural)]
pub enum ErrorSubject {
    /// The Raft log.
    Logs,
    /// The store of votes, log bounds and state-machine data.
    Store,
    /// Nothing in particular (snapshots).
    Unspecified,
}

/// Whether a failed storage operation was reading or writing.
#[derive(Clone, Copy, Debug, PartialEq, Eq, Structural)]
pub enum ErrorVerb {
    Read,
    Write,
}

/// A failed storage operation: what it worked on, how, and the cause.
pub struct StorageFailure {
    pub subject: ErrorSubject,
    pub verb: ErrorVerb,
    pub source: String,
}

/// A failure to read the log.
pub fn log_read_error(source: String) -> (f: StorageFailure)
    ensures
        f.subject == ErrorSubject::Logs,
        f.verb == ErrorVerb::Read,
        f.source == source,
{
    StorageFailure { subject: ErrorSubject::Logs, verb: ErrorVerb::Read, source }
}

/// A failure to write the log.
pub fn log_write_error(source: String) -> (f: StorageFailure)
    ensures
        f.subject == ErrorSubject::Logs,
        f.verb == ErrorVerb::Write,
        f.source == source,
{
    StorageFailure { subject: ErrorSubject::Logs, verb: ErrorVerb::Write, source }
}

/// A failure to read the store.
pub fn store_read_error(source: String) -> (f: StorageFailure)
    ensures
        f.subject == ErrorSubject::Store,
        f.verb == ErrorVerb::Read,
        f.source == source,
{
    StorageFailure { subject: ErrorSubject::Store, verb: ErrorVerb::Read, source }
}

/// A failure to write the store.
pub fn store_write_error(source: String) -> (f: StorageFailure)
    ensures
        f.subject == ErrorSubject::Store,
        f.verb == ErrorVerb::Write,
        f.source == source,
{
    StorageFailure { subject: ErrorSubject::Store, verb: ErrorVerb::Write, source }
}

/// A failure to build, install or read a snapshot.
pub fn create_snapshot_err(source: String) -> (f: StorageFailure)
    ensures
        f.subject == ErrorSubject::Unspecified,
        f.verb == ErrorVerb::Write,
        f.source == source,
{
    StorageFailure { subject: ErrorSubject::Unspecified, verb: ErrorVerb::Write, source }
}

} // verus!
