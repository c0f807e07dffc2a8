//! Values taken from a request: the language code in a path, and the text of
//! a post in the body.

use vstd::prelude::*;
use vstd::string::*;
use vstd::utf8::encode_utf8;

use crate::http::Status;

verus! {

/// A language code of two bytes, such as `en` or `ja`.
pub struct LangCode(pub String);

impl LangCode {
    /// Accepts a path segment as a language code exactly when it is two
    /// bytes long.
    pub fn from_param(param: &str) -> (res: Result<LangCode, ()>)
        ensures
            res is Ok <==> param.spec_bytes().len() == 2,
            res matches Ok(code) ==> code.0@ == param@,
    {
        if param.is_empty() {
            return Err(());
        }
        if param.as_bytes().len() != 2 {
            return Err(());
        }
        Ok(LangCode(param.to_owned()))
    }
}

/// Bodies are read up to this many bytes; a body that reaches it is refused.
pub const POST_LIMIT: usize = 65536;

/// The text of a post, shorter than 65536 bytes.
pub struct BoundedPost {
    pub post: String,
}

impl BoundedPost {
    /// Takes the body text, read up to 65536 bytes: a read error, or a text
    /// that reaches the limit, is a `BadRequest`.
    pub fn from_data(read: Result<String, ()>) -> (res: Result<BoundedPost, Status>)
        ensures
            read is Err ==> res == Err::<BoundedPost, Status>(Status::BadRequest),
            read matches Ok(text) ==> (encode_utf8(text@).len() >= POST_LIMIT ==> res
                == Err::<BoundedPost, Status>(Status::BadRequest)),
            read matches Ok(text) ==> (encode_utf8(text@).len() < POST_LIMIT ==> (
            res matches Ok(p) && p.post@ == text@)),
    {
        let buffer = match read {
            Ok(text) => text,
            Err(()) => return Err(Status::BadRequest),
        };
        if buffer.as_str().as_bytes().len() >= POST_LIMIT {
            return Err(Status::BadRequest);
        }
        Ok(BoundedPost { post: buffer })
    }
}

} // verus!
