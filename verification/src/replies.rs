//! The decisions that request handlers make between their database calls,
//! and the text that they answer with.

use vstd::prelude::*;
use vstd::string::*;
use vstd::utf8::encode_utf8;

use crate::codec::{base64_standard_encode, encode_standard};
use crate::decimal::{decimal, decimal_chars, is_decimal_of, lemma_decimal_is_base_ten};
use crate::http::Status;
use crate::token::{
    read_token_cookie, token_cookie, token_cookie_chars, AccessToken, AuthorizedUser,
};

verus! {

/// `true` or `false` as JSON text.
pub fn json_bool(b: bool) -> (s: &'static str)
    ensures
        b ==> s@ == "true"@,
        !b ==> s@ == "false"@,
{
    if b {
        "true"
    } else {
        "false"
    }
}

/// What a login does after checking the password: issue a token to the user
/// it found, or refuse.
pub enum LoginStep {
    IssueToken(u64),
    Refuse,
}

/// The step after the password check: a user id leads to a token for that
/// user; a failed check is refused.
pub fn login_step(check: Result<u64, ()>) -> (step: LoginStep)
    ensures
        check matches Ok(id) ==> step == LoginStep::IssueToken(id),
        check is Err ==> step == LoginStep::Refuse,
{
    match check {
        Ok(id) => LoginStep::IssueToken(id),
        Err(()) => LoginStep::Refuse,
    }
}

/// The answer to a login: the `token` cookie to set, if any, and the JSON
/// body.
pub struct LoginReply {
    pub cookie: Option<String>,
    pub body: String,
}

/// The answer to a refused login: no cookie, body `false`.
pub fn refused_login() -> (reply: LoginReply)
    ensures
        reply.cookie is None,
        reply.body@ == "false"@,
{
    LoginReply { cookie: None, body: String::from_str("false") }
}

/// The answer once the store was asked for a token: without one the login
/// fails with `BadGateway`; with one, the `token` cookie carries the name and
/// token (and reads back as exactly those), and the body is `true`.
pub fn issued_login(username: &str, issued: Result<AccessToken, ()>) -> (res: Result<
    LoginReply,
    Status,
>)
    ensures
        issued is Err ==> res == Err::<LoginReply, Status>(Status::BadGateway),
        issued matches Ok(t) ==> (res matches Ok(reply) && reply.body@ == "true"@ && (
        reply.cookie matches Some(c) && c@ == token_cookie_chars(username@, t@) && read_token_cookie(
            encode_utf8(c@),
        ) == Ok::<(Seq<char>, Seq<u8>), Status>((username@, t@)))),
{
    match issued {
        Err(()) => Err(Status::BadGateway),
        Ok(token) => {
            let cookie = token_cookie(username, &token);
            Ok(LoginReply { cookie: Some(cookie), body: String::from_str("true") })
        },
    }
}

/// The two cookies of the older login answer: the standard base64 text of
/// the token, and the user's name.
pub fn session_cookies(username: &str, token: &AccessToken) -> (cookies: (String, String))
    ensures
        cookies.0@ == base64_standard_encode(token@),
        cookies.1@ == username@,
{
    (encode_standard(token.as_ref()), username.to_owned())
}

/// `{"username": "<name>"}`, the answer to a token test of a logged-in user
/// (the name is inserted as it is).
pub open spec fn username_json(name: Seq<char>) -> Seq<char> {
    "{\"username\": \""@ + name + "\"}"@
}

/// The token-test body holds the whole name: it is `{"username": "`, then
/// every character of the name, then `"}`, for names of any length.
pub proof fn lemma_token_test_body_holds_whole_name(name: Seq<char>)
    ensures
        username_json(name).len() == name.len() + 16,
        username_json(name).subrange(0, 14) == seq!['{', '"', 'u', 's', 'e', 'r', 'n', 'a', 'm', 'e', '"', ':', ' ', '"'],
        username_json(name).subrange(14, 14 + name.len() as int) == name,
        username_json(name).subrange(14 + name.len() as int, 16 + name.len() as int) == seq!['"', '}'],
{
    reveal_strlit("{\"username\": \"");
    reveal_strlit("\"}");
    let j = username_json(name);
    assert(j.subrange(0, 14) =~= seq!['{', '"', 'u', 's', 'e', 'r', 'n', 'a', 'm', 'e', '"', ':', ' ', '"']);
    let n = name.len() as int;
    assert(j.subrange(14, 14 + n) =~= name);
    assert(j.subrange(14 + n, 16 + n) =~= seq!['"', '}']);
}

/// The answer to a token test: the user's name as JSON, or `null` when the
/// request carries no valid token.
pub fn test_token_body(user: &Option<AuthorizedUser>) -> (body: String)
    ensures
        user matches Some(u) ==> body@ == username_json(u.username@),
        user is None ==> body@ == "null"@,
{
    match user {
        Some(u) => {
            let mut body = String::from_str("{\"username\": \"");
            body.append(u.username.as_str());
            body.append("\"}");
            body
        },
        None => String::from_str("null"),
    }
}

/// The answer to a logout once the token was removed: `true`, or
/// `BadGateway` where the removal failed.
pub fn logout_reply(removed: Result<(), ()>) -> (res: Result<String, Status>)
    ensures
        removed is Err ==> res == Err::<String, Status>(Status::BadGateway),
        removed is Ok ==> (res matches Ok(body) && body@ == "true"@),
{
    match removed {
        Err(()) => Err(Status::BadGateway),
        Ok(()) => Ok(String::from_str("true")),
    }
}

/// The answer to a deletion: whether any row was deleted.
pub fn deletion_reply(affected_rows: u64) -> (s: &'static str)
    ensures
        affected_rows > 0 ==> s@ == "true"@,
        affected_rows == 0 ==> s@ == "false"@,
{
    json_bool(affected_rows > 0)
}

/// The answer of the administrator's account changes: whether the change
/// went through.
pub fn admin_outcome(result: Result<(), ()>) -> (s: &'static str)
    ensures
        result is Ok ==> s@ == "true"@,
        result is Err ==> s@ == "false"@,
{
    json_bool(result.is_ok())
}

/// `{'thread_id':<thread>, 'post_id':<post>}`, the answer of the older
/// handler that opens a thread.
pub open spec fn thread_post_chars(thread_id: u64, post_id: u64) -> Seq<char> {
    "{'thread_id':"@ + decimal_chars(thread_id as nat) + ", 'post_id':"@ + decimal_chars(
        post_id as nat,
    ) + "}"@
}

/// The answer names the thread first and the post second: it is
/// `{'thread_id':`, the base-10 text of the thread id, `, 'post_id':`, the
/// base-10 text of the post id, and `}`. The result gives where the post id's
/// text begins.
pub proof fn lemma_thread_post_fields(thread_id: u64, post_id: u64) -> (k: int)
    ensures
        ({
            let s = thread_post_chars(thread_id, post_id);
            &&& 13 < k && k + 12 < s.len()
            &&& s.subrange(0, 13) == seq!['{', '\'', 't', 'h', 'r', 'e', 'a', 'd', '_', 'i', 'd', '\'', ':']
            &&& is_decimal_of(s.subrange(13, k), thread_id as nat)
            &&& s.subrange(k, k + 12) == seq![',', ' ', '\'', 'p', 'o', 's', 't', '_', 'i', 'd', '\'', ':']
            &&& is_decimal_of(s.subrange(k + 12, s.len() - 1), post_id as nat)
            &&& s.last() == '}'
        }),
{
    reveal_strlit("{'thread_id':");
    reveal_strlit(", 'post_id':");
    reveal_strlit("}");
    lemma_decimal_is_base_ten(thread_id as nat);
    lemma_decimal_is_base_ten(post_id as nat);
    let a = decimal_chars(thread_id as nat);
    let b = decimal_chars(post_id as nat);
    let s = thread_post_chars(thread_id, post_id);
    let k: int = 13 + a.len() as int;
    assert(s.subrange(0, 13) =~= seq!['{', '\'', 't', 'h', 'r', 'e', 'a', 'd', '_', 'i', 'd', '\'', ':']);
    assert(s.subrange(13, k) =~= a);
    assert(s.subrange(k, k + 12) =~= seq![',', ' ', '\'', 'p', 'o', 's', 't', '_', 'i', 'd', '\'', ':']);
    assert(s.subrange(k + 12, s.len() as int - 1) =~= b);
    k
}

/// Renders `thread_post_chars`.
pub fn thread_post_text(thread_id: u64, post_id: u64) -> (s: String)
    ensures
        s@ == thread_post_chars(thread_id, post_id),
{
    let mut s = String::from_str("{'thread_id':");
    s.append(decimal(thread_id).as_str());
    s.append(", 'post_id':");
    s.append(decimal(post_id).as_str());
    s.append("}");
    s
}

} // verus!
