use vstd::prelude::*;

use crate::sample::{InterfaceSample, StoreError};

verus! {

/// rusqlite's connection to an embedded database, carried opaquely.
#[verifier::external_type_specification]
#[verifier::external_body]
pub struct ExConnection(rusqlite::Connection);

/// rusqlite's error type, carried opaquely out of the statement wrappers.
#[verifier::external_type_specification]
#[verifier::external_body]
pub struct ExSqlError(rusqlite::Error);

/// The rows of the samples table reachable through a connection, in
/// insertion order: (interface name, received bytes, transmitted bytes).
pub uninterp spec fn db_rows(conn: rusqlite::Connection) -> Seq<(Seq<char>, u64, u64)>;

/// Whether the samples table exists behind a connection.
pub uninterp spec fn db_has_schema(conn: rusqlite::Connection) -> bool;

/// Relies on rusqlite::Connection::execute running
/// `CREATE TABLE IF NOT EXISTS`: creating the table (or finding it already
/// present) never touches existing rows, and on success the table exists.
#[verifier::external_body]
fn exec_create_table(conn: &mut rusqlite::Connection) -> (r: Result<usize, rusqlite::Error>)
    ensures
        db_rows(*final(conn)) == db_rows(*old(conn)),
        r is Ok ==> db_has_schema(*final(conn)),
        db_has_schema(*old(conn)) ==> db_has_schema(*final(conn)),
{
    conn.execute(
        "CREATE TABLE IF NOT EXISTS InterfaceMetadata (\
            InterfaceName TEXT NOT NULL, \
            ReceivedBytes INTEGER NOT NULL, \
            TransmittedBytes INTEGER NOT NULL)",
        [],
    )
}

/// Relies on rusqlite::Connection::execute running a single-row `INSERT`:
/// on success exactly the given row is appended after the existing ones; a
/// failed statement is rolled back and appends nothing. The byte counters
/// are stored in the table's signed integer columns bit-for-bit.
#[verifier::external_body]
fn exec_insert_row(conn: &mut rusqlite::Connection, name: &str, rx: u64, tx: u64) -> (r:
    Result<usize, rusqlite::Error>)
    ensures
        r is Ok ==> db_rows(*final(conn)) == db_rows(*old(conn)).push((name@, rx, tx)),
        r is Err ==> db_rows(*final(conn)) == db_rows(*old(conn)),
        db_has_schema(*final(conn)) == db_has_schema(*old(conn)),
{
    conn.execute(
        "INSERT INTO InterfaceMetadata (InterfaceName, ReceivedBytes, TransmittedBytes) \
            VALUES (?1, ?2, ?3)",
        (name, rx as i64, tx as i64),
    )
}

/// The durable, append-only log of interface samples, backed by an embedded
/// relational store. Only schema creation and appends are offered: nothing
/// in the core updates, deletes, or reads rows back.
pub struct SampleStore {
    conn: rusqlite::Connection,
}

impl SampleStore {
    /// The rows of the samples table, in insertion order.
    pub closed spec fn rows(self) -> Seq<(Seq<char>, u64, u64)> {
        db_rows(self.conn)
    }

    /// Whether the samples table exists.
    pub closed spec fn has_schema(self) -> bool {
        db_has_schema(self.conn)
    }

    /// Take ownership of an open connection. Whatever rows its database
    /// already holds stay in place: the log only ever grows.
    pub fn new(conn: rusqlite::Connection) -> (r: SampleStore)
        ensures
            r.rows() == db_rows(conn),
            r.has_schema() == db_has_schema(conn),
    {
        SampleStore { conn }
    }

    /// Give the connection back, for example so that a caller can close it.
    pub fn into_connection(self) -> (r: rusqlite::Connection)
        ensures
            db_rows(r) == self.rows(),
            db_has_schema(r) == self.has_schema(),
    {
        self.conn
    }

    /// Create the samples table if it is absent. Idempotent: existing rows
    /// are never altered or dropped, whether or not the table was already
    /// there, and a table that exists stays in place.
    pub fn ensure_schema(&mut self) -> (r: Result<(), StoreError>)
        ensures
            final(self).rows() == old(self).rows(),
            r is Ok ==> final(self).has_schema(),
            old(self).has_schema() ==> final(self).has_schema(),
            r is Err ==> r == Err::<(), StoreError>(StoreError::ConnectionError),
    {
        match exec_create_table(&mut self.conn) {
            Ok(_) => Ok(()),
            Err(_) => Err(StoreError::ConnectionError),
        }
    }

    /// Append one sample. On success the store holds exactly the old rows
    /// followed by this sample's row; on failure it holds the old rows
    /// unchanged. No relation between the new counters and earlier rows is
    /// required: rollovers and resets are stored as-is.
    pub fn append(&mut self, sample: &InterfaceSample) -> (r: Result<(), StoreError>)
        ensures
            r is Ok ==> final(self).rows() == old(self).rows().push(sample.row()),
            r is Err ==> final(self).rows() == old(self).rows() && r == Err::<(), StoreError>(
                StoreError::WriteError,
            ),
            final(self).has_schema() == old(self).has_schema(),
    {
        match exec_insert_row(
            &mut self.conn,
            sample.interface_name.as_str(),
            sample.received_bytes,
            sample.transmitted_bytes,
        ) {
            Ok(_) => Ok(()),
            Err(_) => Err(StoreError::WriteError),
        }
    }
}

} // verus!
