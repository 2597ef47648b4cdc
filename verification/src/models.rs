//! The values that the replicated log carries: statements, their parameters,
//! and the responses of the state machine.
use vstd::prelude::*;

verus! {

/// A statement parameter in a form that can travel between nodes.
///
/// A floating-point value travels as the 64 bits of its IEEE 754 encoding.
#[derive(Clone, Debug)]
pub enum TransportableParam {
    Null,
    Bool(bool),
    I64(i64),
    F64(u64),
    String(String),
    Bytes(Vec<u8>),
}

impl From<bool> for TransportableParam {
    fn from(v: bool) -> (p: TransportableParam) {
        TransportableParam::Bool(v)
    }
}

impl vstd::std_specs::convert::FromSpecImpl<bool> for TransportableParam {
    open spec fn obeys_from_spec() -> bool {
        true
    }

    open spec fn from_spec(v: bool) -> TransportableParam {
        TransportableParam::Bool(v)
    }
}

impl From<i64> for TransportableParam {
    fn from(v: i64) -> (p: TransportableParam) {
        TransportableParam::I64(v)
    }
}

impl vstd::std_specs::convert::FromSpecImpl<i64> for TransportableParam {
    open spec fn obeys_from_spec() -> bool {
        true
    }

    open spec fn from_spec(v: i64) -> TransportableParam {
        TransportableParam::I64(v)
    }
}

impl From<i32> for TransportableParam {
    fn from(v: i32) -> (p: TransportableParam) {
        TransportableParam::I64(v as i64)
    }
}

impl vstd::std_specs::convert::FromSpecImpl<i32> for TransportableParam {
    open spec fn obeys_from_spec() -> bool {
        true
    }

    open spec fn from_spec(v: i32) -> TransportableParam {
        TransportableParam::I64(v as i64)
    }
}

impl From<String> for TransportableParam {
    fn from(v: String) -> (p: TransportableParam) {
        TransportableParam::String(v)
    }
}

impl vstd::std_specs::convert::FromSpecImpl<String> for TransportableParam {
    open spec fn obeys_from_spec() -> bool {
        true
    }

    open spec fn from_spec(v: String) -> TransportableParam {
        TransportableParam::String(v)
    }
}

impl From<Vec<u8>> for TransportableParam {
    fn from(v: Vec<u8>) -> (p: TransportableParam) {
        TransportableParam::Bytes(v)
    }
}

impl vstd::std_specs::convert::FromSpecImpl<Vec<u8>> for TransportableParam {
    open spec fn obeys_from_spec() -> bool {
        true
    }

    open spec fn from_spec(v: Vec<u8>) -> TransportableParam {
        TransportableParam::Bytes(v)
    }
}

impl TransportableParam {
    /// A byte-string parameter holding a copy of `v`.
    pub fn from_slice(v: &[u8]) -> (p: TransportableParam)
        ensures
            p matches TransportableParam::Bytes(b) && b@ == v@,
    {
        TransportableParam::Bytes(vstd::slice::slice_to_vec(v))
    }
}

/// The response of the state machine to an applied entry.
#[derive(Clone, Copy, Debug, Default, PartialEq, Eq, Structural)]
pub struct Response {}

/// A request to the replicated state machine.
#[derive(Debug)]
pub enum Request {
    /// Run a statement with its parameters on the live data.
    Execute { sql: String, value: Vec<TransportableParam> },
}

/// A key-value change, as a log entry of the key-value form.
#[derive(Debug)]
pub enum LogEntry {
    SetOne { key: String, value: Vec<u8> },
    SetMany { keys: Vec<String>, values: Vec<u8> },
    Delete { key: String },
    DeleteMany { keys: Vec<String> },
}

/// Each conversion into a parameter keeps the value it is given, in the
/// variant of its type: distinct values give distinct parameters.
pub proof fn lemma_param_conversions_keep_values(b1: bool, b2: bool, i1: i64, i2: i64, j: i32)
    ensures
        <TransportableParam as vstd::std_specs::convert::FromSpec<bool>>::from_spec(b1)
            == TransportableParam::Bool(b1),
        b1 != b2 ==> <TransportableParam as vstd::std_specs::convert::FromSpec<bool>>::from_spec(b1)
            != <TransportableParam as vstd::std_specs::convert::FromSpec<bool>>::from_spec(b2),
        <TransportableParam as vstd::std_specs::convert::FromSpec<i64>>::from_spec(i1)
            == TransportableParam::I64(i1),
        i1 != i2 ==> <TransportableParam as vstd::std_specs::convert::FromSpec<i64>>::from_spec(i1)
            != <TransportableParam as vstd::std_specs::convert::FromSpec<i64>>::from_spec(i2),
        <TransportableParam as vstd::std_specs::convert::FromSpec<i32>>::from_spec(j) matches
            TransportableParam::I64(x) && x == j,
{
}

/// Converting a string or bytes gives a parameter holding that very value.
pub proof fn lemma_param_conversions_keep_contents(s: String, v: Vec<u8>)
    ensures
        <TransportableParam as vstd::std_specs::convert::FromSpec<String>>::from_spec(s)
            == TransportableParam::String(s),
        <TransportableParam as vstd::std_specs::convert::FromSpec<Vec<u8>>>::from_spec(v)
            == TransportableParam::Bytes(v),
{
}

} // verus!
