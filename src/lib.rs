//! A client for a media server's login: it builds the login request, decides
//! what each answer of the server means, and decides what the local credential
//! store writes and hands back.
use vstd::prelude::*;

pub mod model;
pub mod request;
pub mod auth;
pub mod store;

use crate::auth::{login_outcome, AuthError, Reply, STATUS_OK, STATUS_UNAUTHORIZED};
use crate::model::ClientData;
use crate::store::{
    load_result, save_result, tokens_after_save, tokens_of, SavedUser, StoreError,
};

verus! {

/// A login that the server refuses with 401 fails with `Unauthorized`,
/// whatever the credentials and the body, and hands nothing to the
/// credential store.
pub proof fn refused_login_writes_nothing(decoded: Option<ClientData>)
    ensures
        login_outcome(Reply::Status(STATUS_UNAUTHORIZED), decoded) == (
        None::<ClientData>,
        Err::<Seq<char>, AuthError>(AuthError::Unauthorized),
        ),
{
}

/// A 200 answer whose body does not decode as a session payload fails with
/// `DecodeFailure` and hands nothing to the credential store.
pub proof fn undecodable_login_writes_nothing()
    ensures
        login_outcome(Reply::Status(STATUS_OK), None) == (
        None::<ClientData>,
        Err::<Seq<char>, AuthError>(AuthError::DecodeFailure),
        ),
{
}

/// A 200 answer that decodes to a payload with a non-empty access token
/// succeeds, hands that payload to the credential store, and saving it adds
/// exactly one row to the table, holding that exact token.
pub proof fn login_writes_one_row(c: ClientData, tokens: Seq<Seq<char>>)
    requires
        c.access_token is Some,
        c.access_token->0@.len() > 0,
    ensures
        login_outcome(Reply::Status(STATUS_OK), Some(c)).0 == Some(c),
        login_outcome(Reply::Status(STATUS_OK), Some(c)).1 is Ok,
        tokens_after_save(tokens, c) == tokens.push(c.access_token->0@),
        tokens_after_save(tokens, c).len() == tokens.len() + 1,
{
}

/// Saving a payload without an access token fails with `NoAccessToken` and
/// leaves the table as it was.
pub proof fn tokenless_save_writes_nothing(c: ClientData, tokens: Seq<Seq<char>>)
    requires
        c.access_token is None,
    ensures
        save_result(c) == Err::<Seq<char>, StoreError>(StoreError::NoAccessToken),
        tokens_after_save(tokens, c) == tokens,
{
}

/// After one successful save into an empty table, a read hands back a record
/// whose token is the one that the save wrote.
pub proof fn load_after_one_save(c: ClientData, rows: Vec<SavedUser>)
    requires
        save_result(c) is Ok,
        tokens_of(rows@) == tokens_after_save(seq![], c),
    ensures
        load_result(Ok(rows)) is Ok,
        save_result(c) == Ok::<Seq<char>, StoreError>(load_result(Ok(rows))->Ok_0.accesstoken@),
{
    assert(tokens_of(rows@).len() == 1);
    assert(tokens_of(rows@)[0] == rows@[0].accesstoken@);
}

/// The token that a login's payload carries is written and read back
/// character for character, with nothing added, removed or encoded.
pub proof fn token_round_trip(c: ClientData, rows: Vec<SavedUser>)
    requires
        c.access_token is Some,
        c.access_token->0@.len() > 0,
        tokens_of(rows@) == tokens_after_save(seq![], c),
    ensures
        save_result(c) == Ok::<Seq<char>, StoreError>(c.access_token->0@),
        load_result(Ok(rows)) matches Ok(u) && u.accesstoken@ == c.access_token->0@,
{
    assert(tokens_of(rows@).len() == 1);
    assert(tokens_of(rows@)[0] == rows@[0].accesstoken@);
}

} // verus!
