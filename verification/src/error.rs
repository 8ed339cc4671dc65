//! The error value carried from the point of failure to the recovery
//! boundary.

use vstd::prelude::*;
use vstd::string::StringExecFns;

use crate::cause::{Cause, IntoCause};
use crate::status::{decimal3, decimal3_str, StatusCode};

verus! {

/// The mathematical model of an [`HttpError`]: the numeric status, the
/// optional client-visible message, and the cause-chain descriptions,
/// outermost first (empty when no cause was attached).
pub struct ErrView {
    pub status: u16,
    pub message: Option<Seq<char>>,
    pub causes: Seq<Seq<char>>,
}

/// An error raised inside a request pipeline: an HTTP status code chosen at
/// the point of failure, an optional message meant for the client, and an
/// optional chain of underlying causes meant only for the operator's log.
#[derive(Debug)]
pub struct HttpError {
    status: StatusCode,
    message: Option<String>,
    cause: Option<Cause>,
}

impl View for HttpError {
    type V = ErrView;

    closed spec fn view(&self) -> ErrView {
        ErrView {
            status: self.status@,
            message: match self.message {
                Some(m) => Some(m@),
                None => None,
            },
            causes: match self.cause {
                Some(c) => c@,
                None => Seq::<Seq<char>>::empty(),
            },
        }
    }
}

/// The line under which an error announces itself in the log:
/// `fail with status <code>`.
pub open spec fn display_line_of(status: u16) -> Seq<char> {
    "fail with status "@ + decimal3(status)
}

impl HttpError {
    /// An error with the given status, no message and no cause.
    pub fn new(status: StatusCode) -> (r: HttpError)
        ensures
            r@.status == status@,
            r@.message is None,
            r@.causes == Seq::<Seq<char>>::empty(),
    {
        HttpError { status, message: None, cause: None }
    }

    /// Sets the client-visible message; status and causes are untouched.
    pub fn with_message(self, message: String) -> (r: HttpError)
        ensures
            r@.status == self@.status,
            r@.message == Some(message@),
            r@.causes == self@.causes,
    {
        HttpError { status: self.status, message: Some(message), cause: self.cause }
    }

    /// Sets the underlying cause; status and message — and with them
    /// everything the client ever sees — are untouched.
    pub fn with_source<E: IntoCause>(self, source: E) -> (r: HttpError)
        ensures
            r@.status == self@.status,
            r@.message == self@.message,
            r@.causes == source.cause_view(),
    {
        HttpError { status: self.status, message: self.message, cause: Some(source.into_cause()) }
    }

    /// Sets the underlying cause; a synonym of [`Self::with_source`].
    pub fn with_cause<E: IntoCause>(self, cause: E) -> (r: HttpError)
        ensures
            r@.status == self@.status,
            r@.message == self@.message,
            r@.causes == cause.cause_view(),
    {
        self.with_source(cause)
    }

    /// The stored status code.
    pub fn status(&self) -> (r: StatusCode)
        ensures
            r@ == self@.status,
    {
        self.status
    }

    /// The stored message, or `None` where none was set.
    pub fn message(&self) -> (r: Option<&str>)
        ensures
            r matches Some(m) ==> self@.message == Some(m@),
            r is None ==> self@.message is None,
    {
        match &self.message {
            Some(m) => Some(m.as_str()),
            None => None,
        }
    }

    /// The stored cause chain, or `None` where none was set.
    pub fn cause(&self) -> (r: Option<&Cause>)
        ensures
            r matches Some(c) ==> self@.causes == c@,
            r is None ==> self@.causes == Seq::<Seq<char>>::empty(),
    {
        match &self.cause {
            Some(c) => Some(c),
            None => None,
        }
    }

    /// The short display string of the error, `fail with status <code>`.
    pub fn display_line(&self) -> (s: String)
        ensures
            s@ == display_line_of(self@.status),
    {
        let mut s = "fail with status ".to_owned();
        let digits = decimal3_str(self.status.code());
        s.append(digits.as_str());
        s
    }
}

impl Clone for HttpError {
    fn clone(&self) -> (r: Self)
        ensures
            r@.status == self@.status,
            r@.message == self@.message,
            r@.causes == self@.causes,
    {
        HttpError {
            status: self.status,
            message: match &self.message {
                Some(m) => Some(m.clone()),
                None => None,
            },
            cause: match &self.cause {
                Some(c) => Some(c.clone()),
                None => None,
            },
        }
    }
}

/// An error with the given status, no message and no cause.
pub fn status(code: StatusCode) -> (r: HttpError)
    ensures
        r@.status == code@,
        r@.message is None,
        r@.causes == Seq::<Seq<char>>::empty(),
{
    HttpError::new(code)
}

/// An error with status 204, no message and no cause.
pub fn no_content() -> (r: HttpError)
    ensures
        r@.status == 204,
        r@.message is None,
        r@.causes == Seq::<Seq<char>>::empty(),
{
    HttpError::new(StatusCode::no_content())
}

/// An error with status 200, no message and no cause.
pub fn ok() -> (r: HttpError)
    ensures
        r@.status == 200,
        r@.message is None,
        r@.causes == Seq::<Seq<char>>::empty(),
{
    HttpError::new(StatusCode::ok())
}

/// An error with status 404, no message and no cause.
pub fn not_found() -> (r: HttpError)
    ensures
        r@.status == 404,
        r@.message is None,
        r@.causes == Seq::<Seq<char>>::empty(),
{
    HttpError::new(StatusCode::not_found())
}

/// An error with status 400, no message and no cause.
pub fn bad_request() -> (r: HttpError)
    ensures
        r@.status == 400,
        r@.message is None,
        r@.causes == Seq::<Seq<char>>::empty(),
{
    HttpError::new(StatusCode::bad_request())
}

/// An error with status 403, no message and no cause.
pub fn forbidden() -> (r: HttpError)
    ensures
        r@.status == 403,
        r@.message is None,
        r@.causes == Seq::<Seq<char>>::empty(),
{
    HttpError::new(StatusCode::forbidden())
}

/// An error with status 500 and the given failure as its cause; the message
/// is left unset so the client only ever sees the generic reason phrase.
pub fn internal_server_error<E: IntoCause>(err: E) -> (r: HttpError)
    ensures
        r@.status == 500,
        r@.message is None,
        r@.causes == err.cause_view(),
{
    HttpError::new(StatusCode::internal_server_error()).with_source(err)
}

} // verus!
