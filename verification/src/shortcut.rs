//! Fail-fast shortcut helpers for handler code.
//!
//! Handler code runs fallible operations and consumes optional input. Both
//! shortcuts evaluate one step and, on the negative case, hand the caller a
//! value to return at once from the enclosing handler: a structured
//! [`IronError`] for failures the handler cannot recover from, or a minimal
//! [`Response`] for missing user input, which is expected rather than
//! exceptional.

use vstd::prelude::*;

verus! {

/// Default status for a failure the handler cannot recover from.
pub const STATUS_INTERNAL_SERVER_ERROR: u16 = 500;

/// Default status for missing or invalid user input.
pub const STATUS_BAD_REQUEST: u16 = 400;

/// A hint for presenting a failure to the client: a status code and an
/// optional response body.
pub struct Hint {
    /// The status code the response should carry.
    pub status: u16,
    /// An optional body describing the failure.
    pub body: Option<String>,
}

/// A minimal response, as built from a [`Hint`] by the optional-input
/// shortcut.
pub struct Response {
    /// The status code of the response.
    pub status: u16,
    /// The body of the response, if any.
    pub body: Option<String>,
}

/// A structured handler failure: the original error message plus the hint
/// that says how to present it.
pub struct IronError {
    /// The error that caused the failure.
    pub error: String,
    /// How the failure should be presented.
    pub hint: Hint,
}

/// The hint used by [`itry`] when the caller supplies none.
pub open spec fn default_server_hint() -> Hint {
    Hint { status: STATUS_INTERNAL_SERVER_ERROR, body: None }
}

/// The hint used by [`iexpect`] when the caller supplies none.
pub open spec fn default_client_hint() -> Hint {
    Hint { status: STATUS_BAD_REQUEST, body: None }
}

/// The response that a hint gives rise to.
pub open spec fn response_of(hint: Hint) -> Response {
    Response { status: hint.status, body: hint.body }
}

impl Response {
    /// Build the minimal response a hint describes.
    pub fn with(hint: Hint) -> (r: Response)
        ensures
            r == response_of(hint),
    {
        Response { status: hint.status, body: hint.body }
    }
}

impl IronError {
    /// Wrap an error together with the hint that says how to present it.
    pub fn new(error: String, hint: Hint) -> (r: IronError)
        ensures
            r.error == error,
            r.hint == hint,
    {
        IronError { error, hint }
    }
}

/// Recoverable-operation shortcut: on success hand the value back for
/// continued use; on failure hand back the [`IronError`] the enclosing
/// handler must return at once, built from the error and the hint (or the
/// generic server-error hint when none is supplied).
pub fn itry<T>(result: Result<T, String>, hint: Option<Hint>) -> (r: Result<T, IronError>)
    ensures
        result matches Ok(v) ==> (r matches Ok(w) && w == v),
        result matches Err(e) ==> (r matches Err(ie) && ie.error == e && ie.hint == (match hint {
            Some(h) => h,
            None => default_server_hint(),
        })),
{
    match result {
        Ok(v) => Ok(v),
        Err(e) => {
            let h = match hint {
                Some(h) => h,
                None => Hint { status: STATUS_INTERNAL_SERVER_ERROR, body: None },
            };
            Err(IronError::new(e, h))
        },
    }
}

/// Optional-input shortcut: on a present value hand it back for continued
/// use; on an absent one hand back the minimal successful [`Response`] the
/// enclosing handler must return at once, built from the hint (or the
/// generic client-error hint when none is supplied).
pub fn iexpect<T>(value: Option<T>, hint: Option<Hint>) -> (r: Result<T, Response>)
    ensures
        value matches Some(v) ==> (r matches Ok(w) && w == v),
        value is None ==> (r matches Err(resp) && resp == response_of(match hint {
            Some(h) => h,
            None => default_client_hint(),
        })),
{
    match value {
        Some(v) => Ok(v),
        None => {
            let h = match hint {
                Some(h) => h,
                None => Hint { status: STATUS_BAD_REQUEST, body: None },
            };
            Err(Response::with(h))
        },
    }
}

} // verus!
