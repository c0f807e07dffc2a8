use yuban::dates::{date_text, DateError, DateValue, SkyDate};
use yuban::decimal::decimal;
use yuban::http::{permission_gate, InternalDebugFailure, Status};
use yuban::params::{BoundedPost, LangCode};
use yuban::permissions::{row_exists, Action, Membership};
use yuban::replies::{
    admin_outcome, deletion_reply, issued_login, json_bool, login_step, logout_reply,
    refused_login, session_cookies, test_token_body, thread_post_text, LoginStep,
};
use yuban::server::{connect_step, ConnectAction};
use yuban::token::{parse_token_cookie, AccessToken, AuthorizedUser};

#[test]
fn decimal_matches_to_string() {
    for n in [0u64, 7, 10, 305, 1_000_000, u64::MAX] {
        assert_eq!(decimal(n), n.to_string());
    }
}

#[test]
fn date_text_of_each_kind() {
    let d = DateValue::Date(2021, 3, 7, 9, 5, 0, 120);
    assert_eq!(date_text(&d), Ok("2021-3-7 9:5:0.120".to_owned()));
    let b = DateValue::Bytes(b"2021-01-01 10:00:00".to_vec());
    assert_eq!(date_text(&b), Ok("2021-01-01 10:00:00".to_owned()));
    assert_eq!(date_text(&DateValue::Bytes(vec![0xff, 0x20])), Err(DateError::InvalidUtf8));
    assert_eq!(date_text(&DateValue::Other), Err(DateError::NotADate));
    assert_eq!(DateError::InvalidUtf8.message(), "UTF-8 error in date");
    assert_eq!(DateError::NotADate.message(), "Value not a date");
    assert_eq!(SkyDate(DateValue::Date(1999, 12, 31, 23, 59, 59, 0)).text(), Ok("1999-12-31 23:59:59.0".to_owned()));
}

#[test]
fn status_codes() {
    assert_eq!(Status::Success.code(), 200);
    assert_eq!(Status::Accepted.code(), 202);
    assert_eq!(Status::BadRequest.code(), 400);
    assert_eq!(Status::Unauthorized.code(), 401);
    assert_eq!(Status::InternalServerError.code(), 500);
    assert_eq!(Status::BadGateway.code(), 502);
    assert_eq!(Status::ServiceUnavailable.code(), 503);
}

#[test]
fn failures_convert() {
    assert_eq!(InternalDebugFailure::from(Status::Unauthorized), InternalDebugFailure(Status::Unauthorized));
    assert_eq!(InternalDebugFailure::from(()), InternalDebugFailure(Status::InternalServerError));
    assert_eq!(InternalDebugFailure::internal(), InternalDebugFailure(Status::InternalServerError));
}

#[test]
fn permission_gate_cases() {
    assert_eq!(permission_gate(Ok(true)), Ok(()));
    assert_eq!(permission_gate(Ok(false)), Err(InternalDebugFailure(Status::Unauthorized)));
    assert_eq!(permission_gate(Err(())), Err(InternalDebugFailure(Status::InternalServerError)));
}

#[test]
fn lang_codes_are_two_bytes() {
    assert_eq!(LangCode::from_param("en").unwrap().0, "en");
    assert!(LangCode::from_param("").is_err());
    assert!(LangCode::from_param("e").is_err());
    assert!(LangCode::from_param("eng").is_err());
    assert_eq!(LangCode::from_param("é").unwrap().0, "é");
}

#[test]
fn bounded_posts() {
    assert_eq!(BoundedPost::from_data(Ok("hello".to_owned())).unwrap().post, "hello");
    assert_eq!(BoundedPost::from_data(Err(())).err(), Some(Status::BadRequest));
    let just_below = "x".repeat(65535);
    assert!(BoundedPost::from_data(Ok(just_below)).is_ok());
    let at_limit = "x".repeat(65536);
    assert_eq!(BoundedPost::from_data(Ok(at_limit)).err(), Some(Status::BadRequest));
}

#[test]
fn permission_requirements() {
    assert_eq!(Action::AddThread(4).requirement(), Membership::Group(4));
    assert_eq!(Action::ViewGroup(4).requirement(), Membership::Group(4));
    assert_eq!(Action::AddTranslation(5).requirement(), Membership::Thread(5));
    assert_eq!(Action::ViewThread(5).requirement(), Membership::Thread(5));
    assert_eq!(Action::AddCorrection(6).requirement(), Membership::Post(6));
    assert_eq!(Action::ViewPost(6).requirement(), Membership::Post(6));
    assert_eq!(Action::ViewCorrection(7).requirement(), Membership::Correction(7));
    assert!(row_exists(Some(1)));
    assert!(!row_exists(None));
}

#[test]
fn login_flow() {
    assert!(matches!(login_step(Ok(3)), LoginStep::IssueToken(3)));
    assert!(matches!(login_step(Err(())), LoginStep::Refuse));
    let refused = refused_login();
    assert_eq!(refused.body, "false");
    assert!(refused.cookie.is_none());
    assert_eq!(issued_login("ivy", Err(())).err(), Some(Status::BadGateway));
    let token = AccessToken::try_from((0u8..32).collect::<Vec<u8>>()).unwrap();
    let reply = issued_login("ivy", Ok(token)).unwrap();
    assert_eq!(reply.body, "true");
    let cookie = reply.cookie.unwrap();
    assert_eq!(cookie, "ivyAAECAwQFBgcICQoLDA0ODxAREhMUFRYXGBkaGxwdHh8=");
    let parts = parse_token_cookie(&cookie).unwrap();
    assert_eq!(parts.username, "ivy");
    assert_eq!(parts.token, token);
}

#[test]
fn older_session_cookies_use_standard_base64() {
    let token = AccessToken::try_from(vec![0xfbu8; 32]).unwrap();
    let (t, u) = session_cookies("jack", &token);
    assert_eq!(t, "+/v7+/v7+/v7+/v7+/v7+/v7+/v7+/v7+/v7+/v7+/s=");
    assert_eq!(u, "jack");
}

#[test]
fn token_test_bodies() {
    let token = AccessToken::try_from(vec![1u8; 32]).unwrap();
    let user = AuthorizedUser { userid: 1, username: "kim".to_owned(), token };
    assert_eq!(test_token_body(&Some(user)), "{\"username\": \"kim\"}");
    assert_eq!(test_token_body(&None), "null");
}

#[test]
fn short_replies() {
    assert_eq!(logout_reply(Ok(())), Ok("true".to_owned()));
    assert_eq!(logout_reply(Err(())), Err(Status::BadGateway));
    assert_eq!(deletion_reply(1), "true");
    assert_eq!(deletion_reply(0), "false");
    assert_eq!(admin_outcome(Ok(())), "true");
    assert_eq!(admin_outcome(Err(())), "false");
    assert_eq!(json_bool(true), "true");
    assert_eq!(thread_post_text(3, 12), "{'thread_id':3, 'post_id':12}");
}

#[test]
fn six_connection_attempts() {
    let mut tries = 0u32;
    let mut attempts = 0;
    loop {
        let (action, next) = connect_step(tries);
        tries = next;
        if action == ConnectAction::GiveUp {
            break;
        }
        attempts += 1;
    }
    assert_eq!(attempts, 6);
    assert_eq!(connect_step(5), (ConnectAction::Attempt, 6));
    assert_eq!(connect_step(6), (ConnectAction::GiveUp, 6));
}
