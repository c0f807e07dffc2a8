//! Login records of the SHA-256 scheme: the password hash is SHA-256 of the
//! password followed by a random salt of 16 bytes, and the salt is stored
//! beside it.

use vstd::prelude::*;
use vstd::slice::slice_to_vec;
use vstd::std_specs::cmp::PartialEqSpec;
use vstd::string::*;

use crate::codec::lowercase;
use crate::login::{generate_salt, login_name, SALT_BYTES};

verus! {

/// The digest that `sha2::Sha256::digest(data)` returns.
pub uninterp spec fn sha256(data: Seq<u8>) -> Seq<u8>;

/// Calls `<sha2::Sha256 as sha2::Digest>::digest(data)`.
///
/// Trusted: the 32 bytes returned are the named digest of `data`.
#[verifier::external_body]
fn sha256_digest(data: &[u8]) -> (d: [u8; 32])
    ensures
        d@ == sha256(data@),
{
    <sha2::Sha256 as sha2::Digest>::digest(data).into()
}

/// The salted hash of a password: SHA-256 of its UTF-8 bytes followed by the
/// salt (the digest of the two fed in turn).
pub open spec fn salted_hash(pass: Seq<u8>, salt: Seq<u8>) -> Seq<u8> {
    sha256(pass + salt)
}

/// Computes the salted hash of a password.
pub fn salted_pw(pass: &str, salt: &[u8]) -> (h: [u8; 32])
    ensures
        h@ == salted_hash(pass.spec_bytes(), salt@),
{
    let mut data = slice_to_vec(pass.as_bytes());
    data.extend_from_slice(salt);
    assert(data@ =~= pass.spec_bytes() + salt@);
    sha256_digest(data.as_slice())
}

/// Two sequences hold equal items, as `==` on their items sees it.
pub open spec fn items_equal<T: PartialEq>(a: Seq<T>, b: Seq<T>) -> bool {
    &&& a.len() == b.len()
    &&& forall|i: int| 0 <= i < a.len() ==> (#[trigger] a[i]).eq_spec(&b[i])
}

/// Compares two slices item by item. For item types whose `==` follows its
/// specification, the answer is whether the lengths agree and each pair of
/// items is equal.
pub fn compare_slice<T: PartialEq>(a: &[T], b: &[T]) -> (r: bool)
    ensures
        T::obeys_eq_spec() ==> r == items_equal(a@, b@),
{
    if a.len() != b.len() {
        return false;
    }
    let mut i: usize = 0;
    while i < a.len()
        invariant
            i <= a@.len(),
            a@.len() == b@.len(),
            T::obeys_eq_spec() ==> forall|j: int| 0 <= j < i ==> (#[trigger] a@[j]).eq_spec(&b@[j]),
        decreases a@.len() - i,
    {
        if !(a[i] == b[i]) {
            return false;
        }
        i += 1;
    }
    true
}

/// A user row of the SHA-256 scheme.
pub struct SaltedRecord {
    pub username: String,
    pub password_hash: [u8; 32],
    pub salt: Vec<u8>,
}

/// What the login check of this scheme answers: the id where the salted hash
/// of the password equals the stored hash.
pub open spec fn salted_check(userid: usize, hash: Seq<u8>, salt: Seq<u8>, pass: Seq<u8>) -> Result<usize, ()> {
    if salted_hash(pass, salt) == hash {
        Ok(userid)
    } else {
        Err(())
    }
}

/// The row that `new_login` of this scheme inserts: lower-cased name, fresh
/// salt of 16 bytes, and the salted hash of the password. Checking that
/// password against the row succeeds for any id.
pub fn new_salted_record(name: &str, pass: &str) -> (r: SaltedRecord)
    ensures
        r.username@ == lowercase(name@),
        r.salt@.len() == SALT_BYTES,
        r.password_hash@ == salted_hash(pass.spec_bytes(), r.salt@),
        forall|id: usize|
            salted_check(id, r.password_hash@, r.salt@, pass.spec_bytes()) == Ok::<usize, ()>(id),
{
    let lower_name = login_name(name);
    let salt = generate_salt();
    let pwhash = salted_pw(pass, salt.as_slice());
    SaltedRecord { username: lower_name, password_hash: pwhash, salt }
}

/// What `check_login` of this scheme decides once it has the user's id,
/// stored hash and salt.
pub fn check_salted_password(userid: usize, password_hash: &[u8], salt: &[u8], pass: &str) -> (res: Result<usize, ()>)
    ensures
        res == salted_check(userid, password_hash@, salt@, pass.spec_bytes()),
{
    let hash_result = salted_pw(pass, salt);
    let hash_equal = compare_slice(hash_result.as_slice(), password_hash);
    assert(hash_equal == (hash_result@ =~= password_hash@));
    if hash_equal {
        Ok(userid)
    } else {
        Err(())
    }
}

} // verus!
