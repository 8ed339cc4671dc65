//! The short-circuit channel between a failing handler and the recovery
//! boundary, and the extension that lifts an ordinary fallible result into
//! it.

use vstd::prelude::*;

use crate::cause::IntoCause;
use crate::error::HttpError;
use crate::status::StatusCode;

verus! {

/// The token a short-circuited request carries to the recovery boundary: a
/// tagged union over every failure class the pipeline can raise, with a
/// safe way to tell this layer's errors apart from everything else.
#[derive(Debug)]
pub enum Rejection {
    /// A rejection raised by this layer, carrying the error to render.
    Http(HttpError),
    /// A short-circuit value of some other failure class (for example a
    /// routing-level rejection of the surrounding framework). The payload
    /// identifies the value to whoever raised it; this layer only carries
    /// it through untouched.
    Foreign(u64),
}

impl From<HttpError> for Rejection {
    fn from(err: HttpError) -> (r: Rejection) {
        Rejection::Http(err)
    }
}

impl vstd::std_specs::convert::FromSpecImpl<HttpError> for Rejection {
    open spec fn obeys_from_spec() -> bool {
        true
    }

    open spec fn from_spec(err: HttpError) -> Rejection {
        Rejection::Http(err)
    }
}

/// The extension added to a fallible result: map its failure, if any, into
/// an [`HttpError`] with a chosen status and optional message, lifted into
/// the rejection channel. Success values pass through unchanged, and the
/// original failure is always kept as the error's cause.
pub trait ResultExt<T>: Sized {
    /// The model of the fallible value: its success value, or the
    /// cause-chain descriptions its failure turns into.
    spec fn res_view(self) -> Result<T, Seq<Seq<char>>>;

    /// On failure, wraps with status 400 (Bad Request) and no message.
    fn client_err(self) -> (res: Result<T, Rejection>)
        ensures
            self.res_view() matches Ok(v) ==> res == Ok::<T, Rejection>(v),
            self.res_view() matches Err(cs) ==> (res matches Err(rej) && rej matches Rejection::Http(e)
                && e@.status == 400 && e@.message is None && e@.causes == cs),
    {
        self.with_err_status(StatusCode::bad_request())
    }

    /// On failure, wraps with status 500 (Internal Server Error) and no
    /// message.
    fn server_err(self) -> (res: Result<T, Rejection>)
        ensures
            self.res_view() matches Ok(v) ==> res == Ok::<T, Rejection>(v),
            self.res_view() matches Err(cs) ==> (res matches Err(rej) && rej matches Rejection::Http(e)
                && e@.status == 500 && e@.message is None && e@.causes == cs),
    {
        self.with_err_status(StatusCode::internal_server_error())
    }

    /// On failure, wraps with the given status and no message; the failure
    /// itself becomes the error's cause chain, nothing of it discarded.
    fn with_err_status(self, status: StatusCode) -> (res: Result<T, Rejection>)
        ensures
            self.res_view() matches Ok(v) ==> res == Ok::<T, Rejection>(v),
            self.res_view() matches Err(cs) ==> (res matches Err(rej) && rej matches Rejection::Http(e)
                && e@.status == status@ && e@.message is None && e@.causes == cs),
    ;

    /// On failure, wraps with the given status and a message computed by
    /// `message`. The producer is only needed — and only invoked — on the
    /// failure path, so a successful result pays no formatting cost.
    fn with_err_msg<F: FnOnce() -> String>(self, status: StatusCode, message: F) -> (res: Result<
        T,
        Rejection,
    >)
        requires
            self.res_view() is Err ==> call_requires(message, ()),
        ensures
            self.res_view() matches Ok(v) ==> res == Ok::<T, Rejection>(v),
            self.res_view() matches Err(cs) ==> (res matches Err(rej) && rej matches Rejection::Http(e)
                && e@.status == status@ && e@.causes == cs && (exists|m: String|
                call_ensures(message, (), m) && e@.message == Some(m@))),
    ;
}

impl<T, E: IntoCause> ResultExt<T> for Result<T, E> {
    open spec fn res_view(self) -> Result<T, Seq<Seq<char>>> {
        match self {
            Ok(v) => Ok(v),
            Err(e) => Err(e.cause_view()),
        }
    }

    fn with_err_status(self, status: StatusCode) -> (res: Result<T, Rejection>) {
        match self {
            Ok(v) => Ok(v),
            Err(e) => Err(Rejection::Http(HttpError::new(status).with_source(e))),
        }
    }

    fn with_err_msg<F: FnOnce() -> String>(self, status: StatusCode, message: F) -> (res: Result<
        T,
        Rejection,
    >) {
        match self {
            Ok(v) => Ok(v),
            Err(e) => {
                let m = message();
                Err(Rejection::Http(HttpError::new(status).with_message(m).with_source(e)))
            },
        }
    }
}

} // verus!
