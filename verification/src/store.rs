//! What the user store's methods decide from the rows their queries return.

use vstd::prelude::*;
use vstd::string::*;

use crate::login::{check_password, password_check};
use crate::salted::{check_salted_password, salted_check};

verus! {

/// The token check: the id of the user whose name and token matched a row;
/// no row, or a failed query, is an error.
pub fn user_of_token(row: Result<Option<u64>, ()>) -> (res: Result<u64, ()>)
    ensures
        row matches Ok(Some(id)) ==> res == Ok::<u64, ()>(id),
        !(row matches Ok(Some(_))) ==> res == Err::<u64, ()>(()),
{
    match row {
        Ok(Some(id)) => Ok(id),
        _ => Err(()),
    }
}

/// The steps of the token check of the SHA-256 scheme, up to the point
/// where it answers.
pub enum TokenQuery {
    /// No connection could be had.
    NoConnection,
    /// The statement could not be prepared.
    PrepareFailed,
    /// The query ran and returned this first row (or failed).
    Ran(Result<Option<usize>, ()>),
}

/// The answer of that token check. A statement that cannot be prepared
/// counts as a match; otherwise only a returned row does.
pub fn token_matches(q: TokenQuery) -> (matched: bool)
    ensures
        q is NoConnection ==> !matched,
        q is PrepareFailed ==> matched,
        q matches TokenQuery::Ran(r) ==> (matched <==> r matches Ok(Some(_))),
{
    match q {
        TokenQuery::NoConnection => false,
        TokenQuery::PrepareFailed => true,
        TokenQuery::Ran(Ok(Some(_))) => true,
        TokenQuery::Ran(_) => false,
    }
}

/// The login check, given the row of the named user (id and stored hash):
/// no row or a failed query is an error; otherwise argon2 decides.
pub fn check_login_row(row: Result<Option<(u64, String)>, ()>, pass: &str) -> (res: Result<u64, ()>)
    ensures
        row matches Ok(Some(r)) ==> res == password_check(r.0, r.1@, pass.spec_bytes()),
        !(row matches Ok(Some(_))) ==> res == Err::<u64, ()>(()),
{
    match row {
        Ok(Some((id, pwhash))) => check_password(id, pwhash.as_str(), pass),
        _ => Err(()),
    }
}

/// The login check of the SHA-256 scheme, given the row of the named user
/// (id, stored hash and salt).
pub fn check_salted_login_row(row: Result<Option<(usize, Vec<u8>, Vec<u8>)>, ()>, pass: &str) -> (res: Result<usize, ()>)
    ensures
        row matches Ok(Some(r)) ==> res == salted_check(r.0, r.1@, r.2@, pass.spec_bytes()),
        !(row matches Ok(Some(_))) ==> res == Err::<usize, ()>(()),
{
    match row {
        Ok(Some((id, pwhash, salt))) => check_salted_password(id, pwhash.as_slice(), salt.as_slice(), pass),
        _ => Err(()),
    }
}

} // verus!
