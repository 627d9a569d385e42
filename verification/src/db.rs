//! Saved connections: what is sent to the record store, and how its rows are read.

use crate::error::{Error, ErrorModel};
use vstd::prelude::*;
use vstd::string::StringExecFns;

verus! {

/// A connection that the user saved under a name.
#[derive(Debug, PartialEq, Eq)]
pub struct SavedDb {
    pub id: i32,
    pub name: String,
    pub uri: String,
    pub created_at: i64,
}

pub struct SavedDbModel {
    pub id: i32,
    pub name: Seq<char>,
    pub uri: Seq<char>,
    pub created_at: i64,
}

impl View for SavedDb {
    type V = SavedDbModel;

    open spec fn view(&self) -> SavedDbModel {
        SavedDbModel { id: self.id, name: self.name@, uri: self.uri@, created_at: self.created_at }
    }
}

/// One column of a row, or one parameter of a statement. A real number is held by the bit
/// pattern of its IEEE-754 double.
#[derive(Debug, PartialEq, Eq)]
pub enum SqlValue {
    Null,
    Integer(i64),
    Real(u64),
    Text(String),
    Blob(Vec<u8>),
}

pub enum SqlModel {
    Null,
    Integer(i64),
    Real(u64),
    Text(Seq<char>),
    Blob(Seq<u8>),
}

impl View for SqlValue {
    type V = SqlModel;

    open spec fn view(&self) -> SqlModel {
        match self {
            SqlValue::Null => SqlModel::Null,
            SqlValue::Integer(i) => SqlModel::Integer(*i),
            SqlValue::Real(bits) => SqlModel::Real(*bits),
            SqlValue::Text(text) => SqlModel::Text(text@),
            SqlValue::Blob(bytes) => SqlModel::Blob(bytes@),
        }
    }
}

/// A statement for the record store, with the values of its numbered parameters.
#[derive(Debug, PartialEq, Eq)]
pub struct Statement {
    pub sql: String,
    pub params: Vec<SqlValue>,
}

/// A row, or a parameter list, as mathematics.
pub open spec fn row_model(row: Seq<SqlValue>) -> Seq<SqlModel> {
    Seq::new(row.len(), |i: int| row[i]@)
}

/// The rows of an answer as mathematics.
pub open spec fn rows_model(rows: Seq<Vec<SqlValue>>) -> Seq<Seq<SqlModel>> {
    Seq::new(rows.len(), |i: int| row_model(rows[i]@))
}

/// The saved connections of an answer as mathematics.
pub open spec fn saved_dbs_model(dbs: Seq<SavedDb>) -> Seq<SavedDbModel> {
    Seq::new(dbs.len(), |i: int| dbs[i]@)
}

impl View for Statement {
    type V = (Seq<char>, Seq<SqlModel>);

    open spec fn view(&self) -> (Seq<char>, Seq<SqlModel>) {
        (self.sql@, row_model(self.params@))
    }
}

/// Creates the table of saved connections where it is missing.
pub const CREATE_SAVED_DBS: &'static str = "CREATE TABLE IF NOT EXISTS saved_dbs (
            id         INTEGER PRIMARY KEY,
            name       TEXT NOT NULL UNIQUE,
            uri        TEXT NOT NULL,
            created_at INTEGER NOT NULL
        )";

/// Saves a connection; the store stamps it with the current time.
pub const INSERT_SAVED_DB: &'static str =
    "INSERT INTO saved_dbs (name, uri, created_at) VALUES (?1, ?2, strftime('%s','now'))";

/// Lists every saved connection.
pub const SELECT_SAVED_DBS: &'static str = "SELECT id, name, uri, created_at FROM saved_dbs";

/// Fetches the saved connection with a given id.
pub const SELECT_SAVED_DB: &'static str =
    "SELECT id, name, uri, created_at FROM saved_dbs where id = ?1";

pub const NO_ROWS: &'static str = "Query returned no rows";

pub const BAD_ROW: &'static str = "Invalid row for a saved connection";

/// The statement that makes sure the table of saved connections exists.
pub fn ensure_tables() -> (statement: Statement)
    ensures
        statement@ == (CREATE_SAVED_DBS@, Seq::<SqlModel>::empty()),
{
    let statement = Statement { sql: String::from_str(CREATE_SAVED_DBS), params: Vec::new() };
    assert(row_model(statement.params@) =~= Seq::<SqlModel>::empty());
    statement
}

/// The statement that saves a connection string under a name.
pub fn create_saved_db(name: String, uri: String) -> (statement: Statement)
    ensures
        statement@ == (INSERT_SAVED_DB@, seq![SqlModel::Text(name@), SqlModel::Text(uri@)]),
{
    let mut params: Vec<SqlValue> = Vec::new();
    params.push(SqlValue::Text(name));
    params.push(SqlValue::Text(uri));
    let statement = Statement { sql: String::from_str(INSERT_SAVED_DB), params };
    assert(row_model(statement.params@) =~= seq![SqlModel::Text(name@), SqlModel::Text(uri@)]);
    statement
}

/// What connecting saves: the connection under its name, where a name is given and is not
/// empty; nothing otherwise.
pub open spec fn saved_on_connect(name: Option<String>, uri: String) -> Option<
    (Seq<char>, Seq<SqlModel>),
> {
    match name {
        Some(name) => if name@.len() > 0 {
            Some((INSERT_SAVED_DB@, seq![SqlModel::Text(name@), SqlModel::Text(uri@)]))
        } else {
            None
        },
        None => None,
    }
}

/// The statement, if any, that a new connection sends to the record store.
pub fn save_on_connect(name: Option<String>, uri: String) -> (statement: Option<Statement>)
    ensures
        match statement {
            Some(s) => saved_on_connect(name, uri) == Some(s@),
            None => saved_on_connect(name, uri) is None,
        },
{
    match name {
        Some(name) => {
            if name.as_str().is_empty() {
                None
            } else {
                Some(create_saved_db(name, uri))
            }
        },
        None => None,
    }
}

/// The statement that lists the saved connections.
pub fn get_dbs_query() -> (statement: Statement)
    ensures
        statement@ == (SELECT_SAVED_DBS@, Seq::<SqlModel>::empty()),
{
    let statement = Statement { sql: String::from_str(SELECT_SAVED_DBS), params: Vec::new() };
    assert(row_model(statement.params@) =~= Seq::<SqlModel>::empty());
    statement
}

/// The statement that fetches one saved connection.
pub fn get_db_query(id: i32) -> (statement: Statement)
    ensures
        statement@ == (SELECT_SAVED_DB@, seq![SqlModel::Integer(id as i64)]),
{
    let mut params: Vec<SqlValue> = Vec::new();
    params.push(SqlValue::Integer(id as i64));
    let statement = Statement { sql: String::from_str(SELECT_SAVED_DB), params };
    assert(row_model(statement.params@) =~= seq![SqlModel::Integer(id as i64)]);
    statement
}

/// The saved connection that a row holds: an id that fits 32 bits, a name, a connection
/// string and a creation time, in its first four columns.
pub open spec fn saved_db_of(row: Seq<SqlModel>) -> Option<SavedDbModel> {
    if row.len() >= 4 {
        match (row[0], row[1], row[2], row[3]) {
            (
                SqlModel::Integer(id),
                SqlModel::Text(name),
                SqlModel::Text(uri),
                SqlModel::Integer(created_at),
            ) => if i32::MIN <= id <= i32::MAX {
                Some(SavedDbModel { id: id as i32, name, uri, created_at })
            } else {
                None
            },
            _ => None,
        }
    } else {
        None
    }
}

/// Every row holds a saved connection.
pub open spec fn all_saved_dbs(rows: Seq<Seq<SqlModel>>) -> bool {
    forall|i: int| 0 <= i < rows.len() ==> saved_db_of(#[trigger] rows[i]) is Some
}

/// Reads one row.
pub fn read_saved_db(row: &Vec<SqlValue>) -> (result: Option<SavedDb>)
    ensures
        match result {
            Some(db) => saved_db_of(row_model(row@)) == Some(db@),
            None => saved_db_of(row_model(row@)) is None,
        },
{
    if row.len() < 4 {
        return None;
    }
    assert(row_model(row@)[0] == row@[0]@ && row_model(row@)[1] == row@[1]@ && row_model(row@)[2]
        == row@[2]@ && row_model(row@)[3] == row@[3]@);
    match (&row[0], &row[1], &row[2], &row[3]) {
        (
            SqlValue::Integer(id),
            SqlValue::Text(name),
            SqlValue::Text(uri),
            SqlValue::Integer(created_at),
        ) => {
            if -0x8000_0000 <= *id && *id <= 0x7fff_ffff {
                Some(
                    SavedDb {
                        id: *id as i32,
                        name: name.clone(),
                        uri: uri.clone(),
                        created_at: *created_at,
                    },
                )
            } else {
                None
            }
        },
        _ => None,
    }
}

/// Reads the answer to the list query: one saved connection for each row, in order. A row
/// that holds none is a failure of the store.
pub fn get_dbs(rows: &Vec<Vec<SqlValue>>) -> (result: Result<Vec<SavedDb>, Error>)
    ensures
        match result {
            Ok(dbs) => all_saved_dbs(rows_model(rows@)) && saved_dbs_model(dbs@) == Seq::new(
                rows@.len(),
                |i: int| saved_db_of(rows_model(rows@)[i])->0,
            ),
            Err(error) => !all_saved_dbs(rows_model(rows@)) && error@
                == ErrorModel::PersistenceError(BAD_ROW@),
        },
{
    let mut dbs: Vec<SavedDb> = Vec::new();
    let mut i: usize = 0;
    while i < rows.len()
        invariant
            i <= rows.len(),
            dbs.len() == i,
            forall|j: int|
                0 <= j < i ==> saved_db_of(#[trigger] rows_model(rows@)[j]) == Some(dbs@[j]@),
        decreases rows.len() - i,
    {
        assert(rows_model(rows@)[i as int] == row_model(rows@[i as int]@));
        match read_saved_db(&rows[i]) {
            Some(db) => dbs.push(db),
            None => {
                return Err(Error::PersistenceError(String::from_str(BAD_ROW)));
            },
        }
        i += 1;
    }
    assert(saved_dbs_model(dbs@) =~= Seq::new(
        rows@.len(),
        |i: int| saved_db_of(rows_model(rows@)[i])->0,
    ));
    Ok(dbs)
}

/// Reads the answer to the fetch query: the first row. No row, or a row that holds no
/// saved connection, is a failure of the store.
pub fn get_db(rows: &Vec<Vec<SqlValue>>) -> (result: Result<SavedDb, Error>)
    ensures
        match result {
            Ok(db) => rows@.len() > 0 && saved_db_of(row_model(rows@[0]@)) == Some(db@),
            Err(error) => if rows@.len() == 0 {
                error@ == ErrorModel::PersistenceError(NO_ROWS@)
            } else {
                saved_db_of(row_model(rows@[0]@)) is None && error@
                    == ErrorModel::PersistenceError(BAD_ROW@)
            },
        },
{
    if rows.len() == 0 {
        return Err(Error::PersistenceError(String::from_str(NO_ROWS)));
    }
    match read_saved_db(&rows[0]) {
        Some(db) => Ok(db),
        None => Err(Error::PersistenceError(String::from_str(BAD_ROW))),
    }
}

} // verus!
