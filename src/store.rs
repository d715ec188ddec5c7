//! The local credential store: which row a login writes, what a write
//! reports, and which record a read hands back. The program around the
//! library runs the statements on the database file.
use vstd::prelude::*;

use crate::model::ClientData;

verus! {

/// What a successful insert reports.
pub const INSERTED: &'static str = "Inserted";

/// A row of the user table.
#[derive(Debug, Clone, PartialEq)]
pub struct SavedUser {
    pub id: i32,
    pub accesstoken: String,
}

impl SavedUser {
    /// A record with this id and token.
    pub fn new(id: i32, accesstoken: String) -> (r: SavedUser)
        ensures
            r.id == id,
            r.accesstoken == accesstoken,
    {
        SavedUser { id, accesstoken }
    }
}

/// Why the credential store could not do what was asked.
#[derive(Debug, Clone, PartialEq)]
pub enum StoreError {
    /// The login payload carried no access token; nothing was written.
    NoAccessToken,
    /// The database could not be opened or its table not created; the message is the database's.
    StorageInitFailure(String),
    /// A statement failed; the message is the database's.
    StorageFailure(String),
    /// The table holds no record.
    NotFound,
}

/// How the statements of a save went.
#[derive(Debug, Clone, PartialEq)]
pub enum WriteOutcome {
    /// Opening the database or creating the table failed with this message; no insert was tried.
    TableUnavailable(String),
    /// The insert failed with this message.
    InsertFailed(String),
    /// The row was inserted.
    Inserted,
}

/// The token that saving `c` writes: the payload's access token, verbatim,
/// when it has one that is not empty.
pub open spec fn token_to_write(c: ClientData) -> Option<Seq<char>> {
    match c.access_token {
        Some(t) => if t@.len() > 0 {
            Some(t@)
        } else {
            None
        },
        None => None,
    }
}

/// The tokens of the user table, in row order, after `c` was saved into a
/// table that held `tokens`: one row more, at the end, or no change at all.
pub open spec fn tokens_after_save(tokens: Seq<Seq<char>>, c: ClientData) -> Seq<Seq<char>> {
    match token_to_write(c) {
        Some(t) => tokens.push(t),
        None => tokens,
    }
}

/// The tokens of a list of records, in order.
pub open spec fn tokens_of(rows: Seq<SavedUser>) -> Seq<Seq<char>> {
    rows.map_values(|u: SavedUser| u.accesstoken@)
}

/// What `save_user` returns for `c`, with the token as a sequence of characters.
pub open spec fn save_result(c: ClientData) -> Result<Seq<char>, StoreError> {
    match token_to_write(c) {
        Some(t) => Ok(t),
        None => Err(StoreError::NoAccessToken),
    }
}

/// What a save reports once its statements ran.
pub open spec fn write_status(outcome: WriteOutcome) -> Result<Seq<char>, StoreError> {
    match outcome {
        WriteOutcome::TableUnavailable(m) => Err(StoreError::StorageInitFailure(m)),
        WriteOutcome::InsertFailed(m) => Err(StoreError::StorageFailure(m)),
        WriteOutcome::Inserted => Ok(INSERTED@),
    }
}

/// The record that a read hands back, given the rows that the query
/// returned or the message of its failure: the first row, if there is one.
pub open spec fn load_result(rows: Result<Vec<SavedUser>, String>) -> Result<SavedUser, StoreError> {
    match rows {
        Ok(v) => if v@.len() > 0 {
            Ok(v@[0])
        } else {
            Err(StoreError::NotFound)
        },
        Err(m) => Err(StoreError::StorageFailure(m)),
    }
}

/// A store result with its message as a sequence of characters.
pub open spec fn store_view(r: Result<String, StoreError>) -> Result<Seq<char>, StoreError> {
    match r {
        Ok(s) => Ok(s@),
        Err(e) => Err(e),
    }
}

/// Decides what saving a login's payload writes: `Ok` with the token of the
/// one row to insert (the payload's access token, verbatim), or
/// `NoAccessToken` when the payload has none, or an empty one; then the
/// database must not be touched, not even to create the table.
pub fn save_user(client_data: &ClientData) -> (r: Result<String, StoreError>)
    ensures
        store_view(r) == save_result(*client_data),
{
    match &client_data.access_token {
        Some(token) => {
            if token.as_str().is_empty() {
                Err(StoreError::NoAccessToken)
            } else {
                Ok(token.clone())
            }
        },
        None => Err(StoreError::NoAccessToken),
    }
}

/// What a save reports once its statements ran: `Inserted`, or the
/// database's message as `StorageInitFailure` or `StorageFailure`.
pub fn save_status(outcome: WriteOutcome) -> (r: Result<String, StoreError>)
    ensures
        store_view(r) == write_status(outcome),
{
    match outcome {
        WriteOutcome::TableUnavailable(m) => Err(StoreError::StorageInitFailure(m)),
        WriteOutcome::InsertFailed(m) => Err(StoreError::StorageFailure(m)),
        WriteOutcome::Inserted => Ok(String::from_str(INSERTED)),
    }
}

/// The saved record: the first of the rows that the query of the user table
/// returned, `NotFound` when it returned none, and `StorageFailure` with the
/// database's message when the query failed.
pub fn get_user(rows: Result<Vec<SavedUser>, String>) -> (r: Result<SavedUser, StoreError>)
    ensures
        r == load_result(rows),
{
    match rows {
        Ok(mut v) => {
            if v.len() > 0 {
                Ok(v.swap_remove(0))
            } else {
                Err(StoreError::NotFound)
            }
        },
        Err(m) => Err(StoreError::StorageFailure(m)),
    }
}

} // verus!
