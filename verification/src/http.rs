//! Response statuses and the failure type of request handlers.

use vstd::prelude::*;

verus! {

/// The HTTP statuses that the server answers with.
#[derive(Debug, Clone, Copy, PartialEq, Eq, Structural)]
pub enum Status {
    Success,
    Accepted,
    BadRequest,
    Unauthorized,
    InternalServerError,
    BadGateway,
    ServiceUnavailable,
}

/// The numeric code of each status.
pub open spec fn status_code(s: Status) -> u16 {
    match s {
        Status::Success => 200,
        Status::Accepted => 202,
        Status::BadRequest => 400,
        Status::Unauthorized => 401,
        Status::InternalServerError => 500,
        Status::BadGateway => 502,
        Status::ServiceUnavailable => 503,
    }
}

impl Status {
    /// The numeric HTTP code.
    pub fn code(&self) -> (c: u16)
        ensures
            c == status_code(*self),
    {
        match self {
            Status::Success => 200,
            Status::Accepted => 202,
            Status::BadRequest => 400,
            Status::Unauthorized => 401,
            Status::InternalServerError => 500,
            Status::BadGateway => 502,
            Status::ServiceUnavailable => 503,
        }
    }
}

/// The failure of a request handler: the status it answers with.
#[derive(Debug, Clone, Copy, PartialEq, Eq, Structural)]
pub struct InternalDebugFailure(pub Status);

impl From<Status> for InternalDebugFailure {
    fn from(s: Status) -> (f: Self) {
        InternalDebugFailure(s)
    }
}

impl vstd::std_specs::convert::FromSpecImpl<Status> for InternalDebugFailure {
    open spec fn obeys_from_spec() -> bool {
        true
    }

    open spec fn from_spec(s: Status) -> Self {
        InternalDebugFailure(s)
    }
}

impl From<()> for InternalDebugFailure {
    fn from(u: ()) -> (f: Self) {
        InternalDebugFailure(Status::InternalServerError)
    }
}

impl vstd::std_specs::convert::FromSpecImpl<()> for InternalDebugFailure {
    open spec fn obeys_from_spec() -> bool {
        true
    }

    open spec fn from_spec(u: ()) -> Self {
        InternalDebugFailure(Status::InternalServerError)
    }
}

impl InternalDebugFailure {
    /// The failure for an error of the database driver or of JSON
    /// serialisation: an internal server error.
    pub fn internal() -> (f: Self)
        ensures
            f == InternalDebugFailure(Status::InternalServerError),
    {
        InternalDebugFailure(Status::InternalServerError)
    }
}

/// What a handler does with the answer of a permission query: a failed query
/// is an internal error, a refusal is `Unauthorized`, a grant lets it go on.
pub fn permission_gate(answer: Result<bool, ()>) -> (res: Result<(), InternalDebugFailure>)
    ensures
        answer == Ok::<bool, ()>(true) <==> res is Ok,
        answer is Err ==> res == Err::<(), InternalDebugFailure>(
            InternalDebugFailure(Status::InternalServerError),
        ),
        answer == Ok::<bool, ()>(false) ==> res == Err::<(), InternalDebugFailure>(
            InternalDebugFailure(Status::Unauthorized),
        ),
{
    match answer {
        Err(()) => Err(InternalDebugFailure::from(())),
        Ok(false) => Err(InternalDebugFailure::from(Status::Unauthorized)),
        Ok(true) => Ok(()),
    }
}

} // verus!
