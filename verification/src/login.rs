//! Login records: user names are stored lower-cased, passwords as argon2
//! hashes in the encoded (PHC) form, under a random salt of 16 bytes.

use vstd::prelude::*;
use vstd::string::*;

use crate::codec::{lowercase, to_lowercase};
use crate::random::fill_random;

verus! {

#[verifier::external_type_specification]
#[verifier::external_body]
pub struct ExArgon2Error(argon2::Error);

/// Number of bytes of a fresh salt.
pub const SALT_BYTES: usize = 16;

/// The encoded hash that `argon2::hash_encoded(pwd, salt, &Config::default())`
/// returns where it succeeds.
pub uninterp spec fn argon2_hash(pwd: Seq<u8>, salt: Seq<u8>) -> Seq<char>;

/// What `argon2::verify_encoded(encoded, pwd)` yields: whether the password
/// matches, or `None` where it returns an error.
pub uninterp spec fn argon2_verify(encoded: Seq<char>, pwd: Seq<u8>) -> Option<bool>;

/// The lengths that `argon2::Context::new` accepts under the default
/// configuration: a salt of 8 to 2^32 - 1 bytes and a password of at most
/// 2^32 - 1 bytes.
pub open spec fn argon2_accepts(pwd_len: nat, salt_len: nat) -> bool {
    &&& 8 <= salt_len <= 0xFFFF_FFFF
    &&& pwd_len <= 0xFFFF_FFFF
}

/// Calls `argon2::hash_encoded(pwd, salt, &argon2::Config::default())`.
///
/// Trusted: it succeeds exactly on the lengths that the default
/// configuration accepts (the checks of `Context::new`), returns the named
/// hash, and `verify_encoded` of that hash and the same password answers
/// `true`, as the crate documents.
#[verifier::external_body]
fn hash_encoded(pwd: &[u8], salt: &[u8]) -> (res: Result<String, argon2::Error>)
    ensures
        res is Ok <==> argon2_accepts(pwd@.len(), salt@.len()),
        res matches Ok(h) ==> h@ == argon2_hash(pwd@, salt@),
        res matches Ok(h) ==> argon2_verify(h@, pwd@) == Some(true),
{
    argon2::hash_encoded(pwd, salt, &argon2::Config::default())
}

/// Calls `argon2::verify_encoded(encoded, pwd)`.
///
/// Trusted: it returns the named answer, and an error where that is `None`.
#[verifier::external_body]
fn verify_encoded(encoded: &str, pwd: &[u8]) -> (res: Result<bool, argon2::Error>)
    ensures
        match res {
            Ok(b) => argon2_verify(encoded@, pwd@) == Some(b),
            Err(_) => argon2_verify(encoded@, pwd@) is None,
        },
{
    argon2::verify_encoded(encoded, pwd)
}

/// A fresh random salt of 16 bytes.
pub fn generate_salt() -> (salt: Vec<u8>)
    ensures
        salt@.len() == SALT_BYTES,
{
    let mut salt_vec = [0u8; 16];
    fill_random(&mut salt_vec);
    let mut salt: Vec<u8> = Vec::new();
    let mut i: usize = 0;
    while i < SALT_BYTES
        invariant
            i <= SALT_BYTES,
            salt@.len() == i,
            salt_vec@.len() == SALT_BYTES,
        decreases SALT_BYTES - i,
    {
        salt.push(salt_vec[i]);
        i += 1;
    }
    salt
}

/// The name under which a login is stored: the name in lower case.
pub fn login_name(name: &str) -> (key: String)
    ensures
        key@ == lowercase(name@),
{
    to_lowercase(name)
}

/// A user row as `new_login` inserts it.
pub struct LoginRecord {
    pub username: String,
    pub password_hash: String,
}

/// What a login check answers for a stored hash: the user id where argon2
/// confirms the password, an error otherwise.
pub open spec fn password_check(userid: u64, hash: Seq<char>, pwd: Seq<u8>) -> Result<u64, ()> {
    if argon2_verify(hash, pwd) == Some(true) {
        Ok(userid)
    } else {
        Err(())
    }
}

/// The row for a new login under a given salt: the lower-cased name and the
/// argon2 hash of the password. It fails where argon2 refuses the lengths.
pub fn login_record_with_salt(name: &str, pass: &str, salt: &[u8]) -> (res: Result<LoginRecord, ()>)
    ensures
        res is Ok <==> argon2_accepts(pass.spec_bytes().len(), salt@.len()),
        res matches Ok(r) ==> r.username@ == lowercase(name@),
        res matches Ok(r) ==> r.password_hash@ == argon2_hash(pass.spec_bytes(), salt@),
        res matches Ok(r) ==> forall|id: u64|
            password_check(id, r.password_hash@, pass.spec_bytes()) == Ok::<u64, ()>(id),
{
    let lower_name = login_name(name);
    let pwhash = match hash_encoded(pass.as_bytes(), salt) {
        Ok(h) => h,
        Err(_) => return Err(()),
    };
    Ok(LoginRecord { username: lower_name, password_hash: pwhash })
}

/// The row that `new_login` inserts: as `login_record_with_salt` under a
/// fresh salt of 16 bytes. It fails only for a password longer than
/// 2^32 - 1 bytes; the stored hash then confirms the password for any id.
pub fn new_login_record(name: &str, pass: &str) -> (res: Result<LoginRecord, ()>)
    ensures
        res is Ok <==> pass.spec_bytes().len() <= 0xFFFF_FFFF,
        res matches Ok(r) ==> r.username@ == lowercase(name@),
        res matches Ok(r) ==> exists|salt: Seq<u8>|
            salt.len() == SALT_BYTES && r.password_hash@ == argon2_hash(pass.spec_bytes(), salt),
        res matches Ok(r) ==> forall|id: u64|
            password_check(id, r.password_hash@, pass.spec_bytes()) == Ok::<u64, ()>(id),
{
    let salt = generate_salt();
    let res = login_record_with_salt(name, pass, salt.as_slice());
    proof {
        if res is Ok {
            let s = salt@;
            assert(s.len() == SALT_BYTES && res->Ok_0.password_hash@ == argon2_hash(pass.spec_bytes(), s));
        }
    }
    res
}

/// What `check_login` decides once it has the user's id and stored hash:
/// the id where argon2 confirms the password; an error where it does not, or
/// where the stored hash cannot be read.
pub fn check_password(userid: u64, password_hash: &str, pass: &str) -> (res: Result<u64, ()>)
    ensures
        res == password_check(userid, password_hash@, pass.spec_bytes()),
{
    match verify_encoded(password_hash, pass.as_bytes()) {
        Ok(true) => Ok(userid),
        Ok(false) => Err(()),
        Err(_) => Err(()),
    }
}

} // verus!
