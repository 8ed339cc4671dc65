//! Error classification and HTTP response rendering for a request pipeline.
//!
//! Any internal failure can be converted, at the point of failure, into an
//! [`HttpError`] carrying an HTTP status code, an optional client-visible
//! message, and an optional chain of underlying causes. At the pipeline's
//! error-recovery boundary, [`recover`] renders that value into a plain-text
//! response and produces the full cause chain as log lines for operators.

pub mod cause;
pub mod error;
pub mod recover;
pub mod reject;
pub mod status;

pub use cause::{Cause, IntoCause};
pub use error::{bad_request, forbidden, internal_server_error, no_content, not_found, ok, status, ErrView, HttpError};
pub use recover::{recover, Reply, ReplyView};
pub use reject::{Rejection, ResultExt};
pub use status::StatusCode;
