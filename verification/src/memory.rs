//! In-memory images of SQLite databases, and the checks made on the results of
//! SQLite's serialize and deserialize calls.
use vstd::prelude::*;

verus! {

/// The image of a whole SQLite database, as `sqlite3_serialize` produces it
/// and `sqlite3_deserialize` consumes it.
pub struct SqliteMemory {
    data: Vec<u8>,
}

impl View for SqliteMemory {
    type V = Seq<u8>;

    closed spec fn view(&self) -> Seq<u8> {
        self.data@
    }
}

impl SqliteMemory {
    /// Creates a new image holding a copy of `buf`, an empty one for an empty
    /// slice. The copy lives in memory that the library allocates, whose
    /// exhaustion aborts the process rather than returning an error, so the
    /// result is always `Ok`.
    pub fn from_slice(buf: &[u8]) -> (r: Result<SqliteMemory, SqliteFailure>)
        ensures
            r matches Ok(m) && m@ == buf@,
    {
        Ok(SqliteMemory { data: vstd::slice::slice_to_vec(buf) })
    }

    /// Takes ownership of the bytes of an image.
    pub fn from_vec(data: Vec<u8>) -> (m: SqliteMemory)
        ensures
            m@ == data@,
    {
        SqliteMemory { data }
    }

    /// The bytes of the image.
    pub fn as_slice(&self) -> (s: &[u8])
        ensures
            s@ == self@,
    {
        self.data.as_slice()
    }

    /// The size of the image in bytes.
    pub fn len(&self) -> (n: usize)
        ensures
            n == self@.len(),
    {
        self.data.len()
    }

    /// Gives the bytes of the image back.
    pub fn into_vec(self) -> (v: Vec<u8>)
        ensures
            v@ == self@,
    {
        self.data
    }
}

/// The bytes of a snapshot: the image when there is one, else nothing.
pub fn snapshot_data(image: Option<SqliteMemory>) -> (data: Vec<u8>)
    ensures
        data@ == match image {
            Some(m) => m@,
            None => Seq::<u8>::empty(),
        },
{
    match image {
        Some(m) => m.into_vec(),
        None => Vec::new(),
    }
}

/// A failure reported by SQLite: its result code and a message.
pub struct SqliteFailure {
    pub code: i32,
    pub message: Option<String>,
}

/// SQLite's result code for success.
pub open spec fn sqlite_ok_spec() -> i32 {
    0
}

/// SQLite's result code for a failed allocation.
pub open spec fn sqlite_nomem_spec() -> i32 {
    7
}

/// `rusqlite::ffi::SQLITE_OK`: the result code that SQLite's C interface
/// documents for success, 0.
#[verifier::external_body]
fn sqlite_ok() -> (code: i32)
    ensures
        code == sqlite_ok_spec(),
{
    rusqlite::ffi::SQLITE_OK
}

/// `rusqlite::ffi::SQLITE_NOMEM`: the result code that SQLite's C interface
/// documents for a failed allocation, 7.
#[verifier::external_body]
fn sqlite_nomem() -> (code: i32)
    ensures
        code == sqlite_nomem_spec(),
{
    rusqlite::ffi::SQLITE_NOMEM
}

/// The failure reported when SQLite could not allocate a buffer.
pub open spec fn is_no_memory(f: SqliteFailure) -> bool {
    &&& f.code == sqlite_nomem_spec()
    &&& f.message matches Some(m) && m@ == "Failed to allocate buffer, is the system out of memory?"@
}

/// The failure reported when SQLite could not allocate a buffer.
pub fn no_memory() -> (f: SqliteFailure)
    ensures
        is_no_memory(f),
{
    SqliteFailure {
        code: sqlite_nomem(),
        message: Some(String::from_str("Failed to allocate buffer, is the system out of memory?")),
    }
}

/// Checks what `sqlite3_serialize` returned: a null buffer or a size of -1
/// means that it failed; otherwise the size is that of the image.
pub fn serialized_len(buffer_is_null: bool, size: i64) -> (r: Result<usize, SqliteFailure>)
    ensures
        r is Ok <==> (!buffer_is_null && size != -1),
        r matches Ok(n) ==> n == size as usize,
        r matches Err(f) ==> is_no_memory(f),
{
    if buffer_is_null || size == -1 {
        Err(no_memory())
    } else {
        Ok(size as usize)
    }
}

/// Checks the status that `sqlite3_deserialize` returned.
pub fn deserialize_status(status: i32) -> (r: Result<(), SqliteFailure>)
    ensures
        r is Ok <==> status == sqlite_ok_spec(),
        r matches Err(f) ==> f.code == status && (f.message matches Some(m)
            && m@ == "Unable to create memory view for database"@),
{
    if status != sqlite_ok() {
        Err(SqliteFailure {
            code: status,
            message: Some(String::from_str("Unable to create memory view for database")),
        })
    } else {
        Ok(())
    }
}

} // verus!
