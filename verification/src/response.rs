//! What a handler answers with, before anything is rendered.

use vstd::prelude::*;
use vstd::string::*;

verus! {

/// The status of a response that carries no page or fragment.
#[derive(Clone, Copy, Debug, PartialEq, Eq, Structural)]
pub enum StatusCode {
    SeeOther,
    Forbidden,
    NotFound,
    InternalServerError,
}

impl StatusCode {
    /// The number that goes on the wire.
    pub open spec fn code(self) -> int {
        match self {
            StatusCode::SeeOther => 303,
            StatusCode::Forbidden => 403,
            StatusCode::NotFound => 404,
            StatusCode::InternalServerError => 500,
        }
    }

    /// The status as a number.
    pub fn as_u16(&self) -> (n: u16)
        ensures
            n == self.code(),
    {
        match self {
            StatusCode::SeeOther => 303,
            StatusCode::Forbidden => 403,
            StatusCode::NotFound => 404,
            StatusCode::InternalServerError => 500,
        }
    }
}

/// What a form handler answers with where it does not go on: the form again,
/// or a bare status.
#[derive(Clone, Debug, PartialEq, Eq)]
pub enum Refusal<P> {
    Form(P),
    Status(StatusCode),
}

/// A "see other" redirect: the client fetches `location` with GET.
#[derive(Clone, Debug, PartialEq, Eq)]
pub struct Redirect {
    pub location: String,
}

impl Redirect {
    /// The redirect to `uri`.
    pub fn to(uri: &str) -> (r: Redirect)
        ensures
            r.location@ == uri@,
    {
        Redirect { location: uri.to_owned() }
    }

    /// The status of every redirect.
    pub fn status(&self) -> (s: StatusCode)
        ensures
            s == StatusCode::SeeOther,
    {
        StatusCode::SeeOther
    }
}

} // verus!
