//! The calls into libsql that the repository makes. Each call is awaited
//! on the spot with `pollster`, so every operation is one synchronous
//! round trip to the store.

use vstd::prelude::*;

verus! {

#[verifier::external_type_specification]
#[verifier::external_body]
pub struct ExConnection(libsql::Connection);

#[verifier::external_type_specification]
#[verifier::external_body]
pub struct ExError(libsql::Error);

#[verifier::external_type_specification]
#[verifier::external_body]
pub struct ExRows(libsql::Rows);

#[verifier::external_type_specification]
#[verifier::external_body]
pub struct ExRow(libsql::Row);

/// A value bound to a `?N` placeholder of a statement.
pub enum SqlParam {
    Integer(i64),
    Text(String),
}

/// A failure reported by the store, reduced to plain values: the store's
/// own result code, where it gave one, and its message.
pub struct StoreFailure {
    pub code: Option<i32>,
    pub message: String,
}

/// A statement as it was sent: its text, its parameters, and whether the
/// store accepted it.
pub type Sent = (Seq<char>, Seq<SqlParam>, bool);

/// A connection to the store, with the record of every statement sent
/// through it, in order.
pub struct Store {
    connection: libsql::Connection,
    sent: Ghost<Seq<Sent>>,
}

impl Store {
    /// The statements sent through this store so far, oldest first.
    pub closed spec fn sent(&self) -> Seq<Sent> {
        self.sent@
    }

    /// Wraps an open connection; nothing has been sent through it yet.
    pub fn new(connection: libsql::Connection) -> (r: Store)
        ensures
            r.sent() == Seq::<Sent>::empty(),
    {
        Store { connection, sent: Ghost(Seq::empty()) }
    }
}

/// Relies on `libsql::Connection::execute`, awaited with
/// `pollster::block_on`: sends one statement with its parameters.
#[verifier::external_body]
pub(crate) fn execute(store: &mut Store, sql: &str, params: Vec<SqlParam>) -> (r: Result<u64, libsql::Error>)
    ensures
        final(store).sent() == old(store).sent().push((sql@, params@, r is Ok)),
{
    let values: Vec<libsql::Value> = params.into_iter().map(|p| match p {
        SqlParam::Integer(i) => libsql::Value::Integer(i),
        SqlParam::Text(t) => libsql::Value::Text(t),
    }).collect();
    pollster::block_on(store.connection.execute(sql, values))
}

/// Relies on `libsql::Connection::query`, awaited with
/// `pollster::block_on`: sends one statement and yields its rows.
#[verifier::external_body]
pub(crate) fn query(store: &mut Store, sql: &str, params: Vec<SqlParam>) -> (r: Result<libsql::Rows, libsql::Error>)
    ensures
        final(store).sent() == old(store).sent().push((sql@, params@, r is Ok)),
{
    let values: Vec<libsql::Value> = params.into_iter().map(|p| match p {
        SqlParam::Integer(i) => libsql::Value::Integer(i),
        SqlParam::Text(t) => libsql::Value::Text(t),
    }).collect();
    pollster::block_on(store.connection.query(sql, values))
}

/// Relies on `libsql::Rows::next`, awaited with `pollster::block_on`:
/// the next row, or `None` once the rows are used up.
#[verifier::external_body]
pub(crate) fn next_row(rows: &mut libsql::Rows) -> (r: Result<Option<libsql::Row>, libsql::Error>) {
    pollster::block_on(rows.next())
}

/// Relies on `libsql::Row::column_type` and `libsql::Row::get::<i64>`:
/// the integer in column `idx`, or `None` where the column holds another
/// type. The type is read first, as `get::<i64>` panics on a column that
/// holds no integer.
#[verifier::external_body]
pub(crate) fn column_integer(row: &libsql::Row, idx: i32) -> (r: Result<Option<i64>, libsql::Error>) {
    match row.column_type(idx) {
        Ok(libsql::ValueType::Integer) => row.get::<i64>(idx).map(Some),
        Ok(_) => Ok(None),
        Err(e) => Err(e),
    }
}

/// Relies on `libsql::Row::column_type` and `libsql::Row::get_value`: the
/// bytes in column `idx`, or `None` where the column holds no blob. The
/// type is read first, as `get_value` panics on text that is not UTF-8.
#[verifier::external_body]
pub(crate) fn column_blob(row: &libsql::Row, idx: i32) -> (r: Result<Option<Vec<u8>>, libsql::Error>) {
    match row.column_type(idx) {
        Ok(libsql::ValueType::Blob) => match row.get_value(idx) {
            Ok(libsql::Value::Blob(b)) => Ok(Some(b)),
            Ok(_) => Ok(None),
            Err(e) => Err(e),
        },
        Ok(_) => Ok(None),
        Err(e) => Err(e),
    }
}

/// What `String::from_utf8` makes of bytes that are valid UTF-8.
pub uninterp spec fn utf8_decoded(b: Seq<u8>) -> Seq<char>;

/// Relies on `String::from_utf8`: the text the bytes encode, or `None`
/// where they are not valid UTF-8.
#[verifier::external_body]
pub(crate) fn utf8_text(bytes: Vec<u8>) -> (r: Option<String>)
    ensures
        r matches Some(s) ==> s@ == utf8_decoded(bytes@),
{
    String::from_utf8(bytes).ok()
}

/// Relies on `libsql::Connection::last_insert_rowid`: the row id the
/// store assigned to the latest successful insert on this connection.
#[verifier::external_body]
pub(crate) fn last_insert_rowid(store: &Store) -> (r: i64) {
    store.connection.last_insert_rowid()
}

/// Relies on the variants of `libsql::Error` and on its `Display`: the
/// result code of a `SqliteFailure`, none for any other variant, and the
/// error's text.
#[verifier::external_body]
pub(crate) fn describe_failure(e: &libsql::Error) -> (r: StoreFailure) {
    match e {
        libsql::Error::SqliteFailure(code, _) => StoreFailure { code: Some(*code), message: e.to_string() },
        _ => StoreFailure { code: None, message: e.to_string() },
    }
}

} // verus!
