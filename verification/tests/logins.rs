use yuban::login::{
    check_password, generate_salt, login_name, login_record_with_salt, new_login_record,
};
use yuban::salted::{check_salted_password, compare_slice, new_salted_record, salted_pw};
use yuban::store::{check_login_row, check_salted_login_row, token_matches, user_of_token, TokenQuery};

const KNOWN_HASH: &str =
    "$argon2i$v=19$m=4096,t=3,p=1$c29tZXNhbHQ$iWh06vD8Fy27wf9npn6FXWiCX4K6pW6Ue1Bnzz07Z8A";

#[test]
fn salt_has_16_bytes() {
    assert_eq!(generate_salt().len(), 16);
}

#[test]
fn login_names_are_lower_cased() {
    assert_eq!(login_name("AlIcE"), "alice");
    assert_eq!(login_name("ÄBC"), "äbc");
}

#[test]
fn argon2_record_matches_known_hash() {
    let record = login_record_with_salt("Someone", "password", b"somesalt").unwrap();
    assert_eq!(record.username, "someone");
    assert_eq!(record.password_hash, KNOWN_HASH);
}

#[test]
fn argon2_refuses_short_salt() {
    assert!(login_record_with_salt("x", "password", b"short").is_err());
}

#[test]
fn check_password_against_known_hash() {
    assert_eq!(check_password(9, KNOWN_HASH, "password"), Ok(9));
    assert_eq!(check_password(9, KNOWN_HASH, "Password"), Err(()));
    assert_eq!(check_password(9, "not a hash", "password"), Err(()));
}

#[test]
fn new_login_can_log_in() {
    let record = new_login_record("Frank", "secret").unwrap();
    assert_eq!(record.username, "frank");
    assert_eq!(check_password(3, &record.password_hash, "secret"), Ok(3));
    assert_eq!(check_password(3, &record.password_hash, "secret!"), Err(()));
}

#[test]
fn salted_pw_is_sha256_of_password_then_salt() {
    let abc = salted_pw("abc", b"");
    assert_eq!(
        abc.iter().map(|b| format!("{:02x}", b)).collect::<String>(),
        "ba7816bf8f01cfea414140de5dae2223b00361a396177a9cb410ff61f20015ad"
    );
    let h = salted_pw("pw", b"saltsaltsaltsalt");
    assert_eq!(
        h.to_vec(),
        vec![
            188, 112, 37, 127, 6, 7, 196, 223, 219, 205, 172, 240, 135, 135, 94, 248, 83, 5, 175,
            161, 131, 23, 218, 11, 236, 69, 186, 138, 233, 230, 58, 82
        ]
    );
}

#[test]
fn compare_slice_cases() {
    assert!(compare_slice::<u8>(&[], &[]));
    assert!(compare_slice(&[1, 2, 3], &[1, 2, 3]));
    assert!(!compare_slice(&[1, 2, 3], &[1, 2]));
    assert!(!compare_slice(&[1, 2, 3], &[1, 2, 4]));
    assert!(compare_slice(&["a", "b"], &["a", "b"]));
}

#[test]
fn salted_login_round_trip() {
    let record = new_salted_record("Grace", "hunter2");
    assert_eq!(record.username, "grace");
    assert_eq!(record.salt.len(), 16);
    assert_eq!(check_salted_password(4, &record.password_hash, &record.salt, "hunter2"), Ok(4));
    assert_eq!(check_salted_password(4, &record.password_hash, &record.salt, "hunter3"), Err(()));
}

#[test]
fn store_token_answers() {
    assert_eq!(user_of_token(Ok(Some(8))), Ok(8));
    assert_eq!(user_of_token(Ok(None)), Err(()));
    assert_eq!(user_of_token(Err(())), Err(()));
    assert!(!token_matches(TokenQuery::NoConnection));
    assert!(token_matches(TokenQuery::PrepareFailed));
    assert!(token_matches(TokenQuery::Ran(Ok(Some(1)))));
    assert!(!token_matches(TokenQuery::Ran(Ok(None))));
    assert!(!token_matches(TokenQuery::Ran(Err(()))));
}

#[test]
fn store_login_rows() {
    assert_eq!(check_login_row(Ok(Some((5, KNOWN_HASH.to_owned()))), "password"), Ok(5));
    assert_eq!(check_login_row(Ok(Some((5, KNOWN_HASH.to_owned()))), "nope"), Err(()));
    assert_eq!(check_login_row(Ok(None), "password"), Err(()));
    assert_eq!(check_login_row(Err(()), "password"), Err(()));

    let record = new_salted_record("h", "pw");
    let row = (6usize, record.password_hash.to_vec(), record.salt.clone());
    assert_eq!(check_salted_login_row(Ok(Some(row.clone())), "pw"), Ok(6));
    assert_eq!(check_salted_login_row(Ok(Some(row)), "px"), Err(()));
    assert_eq!(check_salted_login_row(Ok(None), "pw"), Err(()));
}
