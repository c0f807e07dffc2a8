use yuban::http::Status;
use yuban::token::{
    parse_token_cookie, token_cookie, AccessToken, AuthorizedAdmin, AuthorizedUser, TokenCookie,
};

fn counting_token() -> AccessToken {
    AccessToken::try_from((0u8..32).collect::<Vec<u8>>()).unwrap()
}

#[test]
fn token_accepts_exactly_32_bytes() {
    assert!(AccessToken::try_from(vec![7u8; 32]).is_ok());
    assert!(AccessToken::try_from(vec![7u8; 31]).is_err());
    assert!(AccessToken::try_from(vec![7u8; 33]).is_err());
    assert!(AccessToken::try_from(Vec::new()).is_err());
}

#[test]
fn token_bytes_round_trip() {
    let bytes: Vec<u8> = (100u8..132).collect();
    let token = AccessToken::try_from(bytes.clone()).unwrap();
    assert_eq!(token.as_ref().to_vec(), bytes);
    assert_eq!(token.into_vec(), bytes);
}

#[test]
fn fresh_tokens_have_32_bytes_and_differ() {
    let a = AccessToken::default();
    let b = AccessToken::default();
    assert_eq!(a.into_vec().len(), 32);
    assert_ne!(a, b);
}

#[test]
fn login_cookie_is_name_then_url_safe_base64() {
    let cookie = token_cookie("alice", &counting_token());
    assert_eq!(cookie, "aliceAAECAwQFBgcICQoLDA0ODxAREhMUFRYXGBkaGxwdHh8=");
}

#[test]
fn login_cookie_uses_url_safe_alphabet() {
    let token = AccessToken::try_from(vec![0xfbu8; 32]).unwrap();
    let cookie = token_cookie("bob", &token);
    assert_eq!(cookie, "bob-_v7-_v7-_v7-_v7-_v7-_v7-_v7-_v7-_v7-_v7-_s=");
}

#[test]
fn login_cookie_reads_back() {
    for name in ["alice", "", "jürgen", "名前"] {
        let token = counting_token();
        let cookie = token_cookie(name, &token);
        let parts: TokenCookie = parse_token_cookie(&cookie).unwrap();
        assert_eq!(parts.username, name);
        assert_eq!(parts.token, token);
    }
}

#[test]
fn malformed_cookie_is_bad_request() {
    let not_base64 = format!("carol{}", "!".repeat(44));
    assert_eq!(parse_token_cookie(&not_base64).err(), Some(Status::BadRequest));
    // 44 symbols without padding decode to 33 bytes
    let too_long = format!("carol{}", "A".repeat(44));
    assert_eq!(parse_token_cookie(&too_long).err(), Some(Status::BadRequest));
}

#[test]
fn missing_cookie_is_unauthorized() {
    assert_eq!(AuthorizedUser::credentials(None).err(), Some(Status::Unauthorized));
    let cookie = token_cookie("dave", &counting_token());
    let parts = AuthorizedUser::credentials(Some(&cookie)).unwrap();
    assert_eq!(parts.username, "dave");
}

#[test]
fn authorize_follows_the_store() {
    let cookie = token_cookie("erin", &counting_token());
    let parts = parse_token_cookie(&cookie).unwrap();
    let user = AuthorizedUser::authorize(parts, Ok(42)).unwrap();
    assert_eq!(user.userid, 42);
    assert_eq!(user.username, "erin");
    assert_eq!(user.token, counting_token());

    let parts = parse_token_cookie(&cookie).unwrap();
    assert_eq!(AuthorizedUser::authorize(parts, Err(())).err(), Some(Status::Unauthorized));
}

#[test]
fn only_admin_is_admin() {
    let user = AuthorizedUser { userid: 1, username: "admin".to_owned(), token: counting_token() };
    assert_eq!(AuthorizedAdmin::from_user(user).unwrap().username, "admin");
    let user = AuthorizedUser { userid: 2, username: "Admin".to_owned(), token: counting_token() };
    assert_eq!(AuthorizedAdmin::from_user(user).err(), Some(Status::Unauthorized));
}
