//! Calls to the Prose Pod API: its URLs and its errors.
use vstd::prelude::*;

use crate::text::push_str;

verus! {

/// The Prose Pod API, served at `url` (no trailing `/`).
#[derive(Debug)]
pub struct ProsePodApi {
    pub url: String,
}

impl ProsePodApi {
    /// The URL of the API route `path`, which starts with `/`.
    pub fn url(&self, path: &str) -> (u: String)
        requires
            path@.len() > 0,
            path@[0] == '/',
        ensures
            u@ == self.url@ + path@,
    {
        let mut u = self.url.clone();
        push_str(&mut u, path);
        u
    }
}

/// What a call to the Prose Pod API can fail with. Each variant holds the
/// error's message, causes included.
#[derive(Debug)]
pub enum ProsePodApiError {
    BadRequest(String),
    Unauthorized(String),
    Forbidden(String),
    NotFound(String),
    Conflict(String),
    Internal(String),
    Other(String),
}

/// What the error displays as.
pub open spec fn pod_api_error_text(e: ProsePodApiError) -> Seq<char> {
    match e {
        ProsePodApiError::BadRequest(m) => "Bad request: "@ + m@,
        ProsePodApiError::Unauthorized(m) => "Unauthorized: "@ + m@,
        ProsePodApiError::Forbidden(m) => "Forbidden: "@ + m@,
        ProsePodApiError::NotFound(m) => "Not found: "@ + m@,
        ProsePodApiError::Conflict(m) => "Conflict: "@ + m@,
        ProsePodApiError::Internal(m) => m@,
        ProsePodApiError::Other(m) => m@,
    }
}

impl ProsePodApiError {
    /// What the error displays as: a prefix naming the HTTP error, then
    /// the message.
    pub fn to_string(&self) -> (s: String)
        ensures
            s@ == pod_api_error_text(*self),
    {
        let (prefix, m) = match self {
            ProsePodApiError::BadRequest(m) => ("Bad request: ", m),
            ProsePodApiError::Unauthorized(m) => ("Unauthorized: ", m),
            ProsePodApiError::Forbidden(m) => ("Forbidden: ", m),
            ProsePodApiError::NotFound(m) => ("Not found: ", m),
            ProsePodApiError::Conflict(m) => ("Conflict: ", m),
            ProsePodApiError::Internal(m) => ("", m),
            ProsePodApiError::Other(m) => ("", m),
        };
        let mut s = prefix.to_owned();
        push_str(&mut s, m.as_str());
        proof {
            reveal_strlit("");
        }
        s
    }
}

/// Treats a "not found" answer as the default value of `T`; any other
/// error is handed back.
pub fn accept_not_found<T: Default>(error: ProsePodApiError) -> (r: Result<T, ProsePodApiError>)
    ensures
        error is NotFound ==> r is Ok && call_ensures(T::default, (), r->Ok_0),
        !(error is NotFound) ==> r == Err::<T, ProsePodApiError>(error),
{
    match error {
        ProsePodApiError::NotFound(_) => Ok(T::default()),
        err => Err(err),
    }
}

} // verus!
