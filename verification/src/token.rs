//! Access tokens, the `token` cookie that carries them, and the users and
//! administrators that a request is made by.

use vstd::prelude::*;
use vstd::string::*;
use vstd::utf8::*;

use crate::codec::{base64_url_decode, base64_url_encode, decode_url_safe, encode_url_safe};
use crate::http::Status;
use crate::random::fill_random;

verus! {

broadcast use vstd::utf8::group_utf8_lib;

/// Number of bytes in an access token.
pub const TOKEN_BYTES: usize = 32;

/// Number of characters of the URL-safe base64 text of a token.
pub const TOKEN_TEXT_LEN: usize = 44;

/// A secret of 32 bytes that a user presents to prove a login.
#[derive(Debug, Clone, Copy, Hash, PartialEq, Eq)]
pub struct AccessToken([u8; 32]);

impl View for AccessToken {
    type V = Seq<u8>;

    closed spec fn view(&self) -> Seq<u8> {
        self.0@
    }
}

/// Every token holds exactly 32 bytes.
pub broadcast proof fn lemma_token_len(t: AccessToken)
    ensures
        #[trigger] t@.len() == TOKEN_BYTES,
{
}

impl AccessToken {
    /// Takes the bytes of a token; fails unless there are exactly 32.
    pub fn try_from(value: Vec<u8>) -> (res: Result<AccessToken, ()>)
        ensures
            res is Ok <==> value@.len() == TOKEN_BYTES,
            res matches Ok(t) ==> t@ == value@,
    {
        if value.len() != TOKEN_BYTES {
            return Err(());
        }
        let mut bytes = [0u8; 32];
        let mut i: usize = 0;
        while i < TOKEN_BYTES
            invariant
                i <= TOKEN_BYTES,
                value@.len() == TOKEN_BYTES,
                bytes@.len() == TOKEN_BYTES,
                forall|j: int| 0 <= j < i ==> bytes@[j] == value@[j],
            decreases TOKEN_BYTES - i,
        {
            bytes[i] = value[i];
            i += 1;
        }
        assert(bytes@ =~= value@);
        Ok(AccessToken(bytes))
    }

    /// The bytes of the token, as a vector.
    pub fn into_vec(self) -> (v: Vec<u8>)
        ensures
            v@ == self@,
    {
        let mut v: Vec<u8> = Vec::new();
        let mut i: usize = 0;
        while i < TOKEN_BYTES
            invariant
                i <= TOKEN_BYTES,
                self.0@.len() == TOKEN_BYTES,
                v@ == self.0@.subrange(0, i as int),
            decreases TOKEN_BYTES - i,
        {
            v.push(self.0[i]);
            i += 1;
            assert(v@ =~= self.0@.subrange(0, i as int));
        }
        assert(self.0@.subrange(0, TOKEN_BYTES as int) =~= self.0@);
        v
    }

    /// The bytes of the token.
    pub fn as_ref(&self) -> (b: &[u8; 32])
        ensures
            b@ == self@,
    {
        &self.0
    }
}

impl Default for AccessToken {
    /// A fresh token of random bytes.
    fn default() -> (t: Self)
        ensures
            t@.len() == TOKEN_BYTES,
    {
        let mut bytes = [0u8; 32];
        fill_random(&mut bytes);
        AccessToken(bytes)
    }
}

/// The value of the `token` cookie for a user and a token: the user's name
/// followed by the URL-safe base64 text of the token.
pub open spec fn token_cookie_chars(username: Seq<char>, token: Seq<u8>) -> Seq<char> {
    username + base64_url_encode(token)
}

/// A cookie value can be split without a panic: it has at least 44 bytes, and
/// the last 44 begin at a character boundary.
pub open spec fn cookie_splittable(bytes: Seq<u8>) -> bool {
    &&& bytes.len() >= TOKEN_TEXT_LEN
    &&& is_char_boundary(bytes, bytes.len() - TOKEN_TEXT_LEN)
}

/// What a cookie value (given by its UTF-8 bytes) says: the name in all but
/// its last 44 bytes, and the token that those 44 bytes decode to. It is
/// `BadRequest` where they are no URL-safe base64, or decode to other than
/// 32 bytes.
pub open spec fn read_token_cookie(bytes: Seq<u8>) -> Result<(Seq<char>, Seq<u8>), Status> {
    let k = bytes.len() - TOKEN_TEXT_LEN;
    match base64_url_decode(bytes.subrange(k, bytes.len() as int)) {
        Some(t) => if t.len() == TOKEN_BYTES {
            Ok((decode_utf8(bytes.subrange(0, k)), t))
        } else {
            Err(Status::BadRequest)
        },
        None => Err(Status::BadRequest),
    }
}

/// The name and token that a `token` cookie holds.
pub struct TokenCookie {
    pub username: String,
    pub token: AccessToken,
}

proof fn lemma_encode_utf8_concat(a: Seq<char>, b: Seq<char>)
    ensures
        encode_utf8(a + b) == encode_utf8(a) + encode_utf8(b),
    decreases a.len(),
{
    if a.len() == 0 {
        assert(a + b =~= b);
    } else {
        lemma_encode_utf8_concat(a.drop_first(), b);
        assert((a + b).drop_first() =~= a.drop_first() + b);
        assert((a + b)[0] == a[0]);
        assert(encode_utf8(a + b) =~= encode_utf8(a) + encode_utf8(b));
    }
}

/// The value of the `token` cookie that a login sets.
///
/// Reading the value back gives the same name and token: the cookie can be
/// split without a panic, and `read_token_cookie` yields exactly
/// `(username, token)`.
pub fn token_cookie(username: &str, token: &AccessToken) -> (cookie: String)
    ensures
        cookie@ == token_cookie_chars(username@, token@),
        base64_url_encode(token@).len() == TOKEN_TEXT_LEN,
        cookie_splittable(encode_utf8(cookie@)),
        read_token_cookie(encode_utf8(cookie@)) == Ok::<(Seq<char>, Seq<u8>), Status>(
            (username@, token@),
        ),
{
    let text = encode_url_safe(token.as_ref());
    let mut cookie = username.to_owned();
    cookie.append(text.as_str());
    proof {
        let u = username@;
        let e = text@;
        lemma_encode_utf8_concat(u, e);
        is_ascii_chars_encode_utf8(e);
        let bytes = encode_utf8(cookie@);
        let k = encode_utf8(u).len() as int;
        assert(bytes.len() == k + TOKEN_TEXT_LEN);
        assert(bytes.subrange(0, k) =~= encode_utf8(u));
        assert(bytes.subrange(k, bytes.len() as int) =~= encode_utf8(e));
        assert(bytes[k] == encode_utf8(e)[0]);
        assert(is_char_boundary(bytes, k));
    }
    cookie
}

/// Splits a `token` cookie into its name and token.
pub fn parse_token_cookie(cookie: &str) -> (res: Result<TokenCookie, Status>)
    requires
        cookie_splittable(cookie.spec_bytes()),
    ensures
        match res {
            Ok(c) => read_token_cookie(cookie.spec_bytes()) == Ok::<(Seq<char>, Seq<u8>), Status>(
                (c.username@, c.token@),
            ),
            Err(s) => read_token_cookie(cookie.spec_bytes()) == Err::<(Seq<char>, Seq<u8>), Status>(s),
        },
{
    let n = cookie.as_bytes().len();
    let (name, text) = cookie.split_at(n - TOKEN_TEXT_LEN);
    let decoded = match decode_url_safe(text.as_bytes()) {
        Ok(v) => v,
        Err(_) => return Err(Status::BadRequest),
    };
    let token = match AccessToken::try_from(decoded) {
        Ok(t) => t,
        Err(()) => return Err(Status::BadRequest),
    };
    Ok(TokenCookie { username: name.to_owned(), token })
}

/// A user whose `token` cookie matched a token that the store holds for them.
#[derive(Debug)]
pub struct AuthorizedUser {
    pub userid: u64,
    pub username: String,
    pub token: AccessToken,
}

impl AuthorizedUser {
    /// First step of authorising a request: read the `token` cookie. Without
    /// one the request is `Unauthorized`; a malformed one is a `BadRequest`.
    pub fn credentials(cookie: Option<&str>) -> (res: Result<TokenCookie, Status>)
        requires
            cookie matches Some(c) ==> cookie_splittable(c.spec_bytes()),
        ensures
            cookie is None ==> res == Err::<TokenCookie, Status>(Status::Unauthorized),
            cookie matches Some(c) ==> match res {
                Ok(p) => read_token_cookie(c.spec_bytes()) == Ok::<(Seq<char>, Seq<u8>), Status>(
                    (p.username@, p.token@),
                ),
                Err(s) => read_token_cookie(c.spec_bytes()) == Err::<(Seq<char>, Seq<u8>), Status>(s),
            },
    {
        match cookie {
            None => Err(Status::Unauthorized),
            Some(c) => parse_token_cookie(c),
        }
    }

    /// Second step: the store's answer to whether the token belongs to the
    /// named user. A user id admits the request; anything else leaves it
    /// `Unauthorized`.
    pub fn authorize(credentials: TokenCookie, check: Result<u64, ()>) -> (res: Result<
        AuthorizedUser,
        Status,
    >)
        ensures
            check is Err ==> res == Err::<AuthorizedUser, Status>(Status::Unauthorized),
            check matches Ok(id) ==> (res matches Ok(u) && u.userid == id && u.username@
                == credentials.username@ && u.token@ == credentials.token@),
    {
        match check {
            Ok(userid) => Ok(
                AuthorizedUser {
                    userid,
                    username: credentials.username,
                    token: credentials.token,
                },
            ),
            Err(()) => Err(Status::Unauthorized),
        }
    }
}

/// The name of the one administrator account.
pub open spec fn admin_name() -> Seq<char> {
    seq!['a', 'd', 'm', 'i', 'n']
}

/// A request made by the administrator.
pub struct AuthorizedAdmin {
    pub username: String,
}

impl AuthorizedAdmin {
    /// Admits an authorised user as administrator exactly when the name is
    /// `admin`; anyone else is `Unauthorized`.
    pub fn from_user(user: AuthorizedUser) -> (res: Result<AuthorizedAdmin, Status>)
        ensures
            user.username@ == admin_name() ==> (res matches Ok(a) && a.username@ == user.username@),
            user.username@ != admin_name() ==> res == Err::<AuthorizedAdmin, Status>(
                Status::Unauthorized,
            ),
    {
        let admin = String::from_str("admin");
        proof {
            reveal_strlit("admin");
        }
        assert(admin@ == admin_name());
        if user.username == admin {
            Ok(AuthorizedAdmin { username: user.username })
        } else {
            Err(Status::Unauthorized)
        }
    }
}

} // verus!
