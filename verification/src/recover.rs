//! The recovery boundary: the single place where a short-circuited request
//! is turned into a final response, or passed on to an outer handler.

use vstd::prelude::*;
use vstd::string::StringExecFns;

use crate::cause::Cause;
use crate::error::{display_line_of, ErrView};
use crate::reject::Rejection;
use crate::status::{reason_of, reason_phrase, StatusCode};

verus! {

/// The mathematical model of a [`Reply`]: the numeric status and the
/// plain-text body.
pub struct ReplyView {
    pub status: u16,
    pub body: Seq<char>,
}

/// The rendered response: a status code and a plain-text body. Producing
/// it never fails.
pub struct Reply {
    status: StatusCode,
    body: String,
}

impl View for Reply {
    type V = ReplyView;

    closed spec fn view(&self) -> ReplyView {
        ReplyView { status: self.status@, body: self.body@ }
    }
}

impl Reply {
    /// The response's status code.
    pub fn status(&self) -> (r: StatusCode)
        ensures
            r@ == self@.status,
    {
        self.status
    }

    /// The response's plain-text body.
    pub fn body(&self) -> (r: &str)
        ensures
            r@ == self@.body,
    {
        self.body.as_str()
    }
}

/// The client-visible body of an error: its message where one was set,
/// else the canonical reason phrase of its status, else the empty string.
/// The cause chain takes no part in it.
pub open spec fn rendered_body(e: ErrView) -> Seq<char> {
    match e.message {
        Some(m) => m,
        None => match reason_of(e.status) {
            Some(p) => p,
            None => Seq::<char>::empty(),
        },
    }
}

/// An error without a message renders as the canonical reason phrase of
/// its status, whatever its cause chain holds.
pub proof fn lemma_body_is_reason_without_message(e: ErrView, phrase: Seq<char>)
    requires
        e.message is None,
        reason_of(e.status) == Some(phrase),
    ensures
        rendered_body(e) == phrase,
{
}

/// An error with a message renders as exactly that message, whatever its
/// status's canonical phrase and whatever its cause chain holds.
pub proof fn lemma_body_is_message(e: ErrView, m: Seq<char>)
    requires
        e.message == Some(m),
    ensures
        rendered_body(e) == m,
{
}

/// The cause chain never reaches the rendered body: two errors that agree
/// on status and message render identically, whatever their causes.
pub proof fn lemma_cause_never_rendered(e1: ErrView, e2: ErrView)
    requires
        e1.status == e2.status,
        e1.message == e2.message,
    ensures
        rendered_body(e1) == rendered_body(e2),
{
}

/// The recovery boundary, invoked once per short-circuited request.
///
/// A token of this layer is consumed: the result holds the rendered
/// response — the stored status, with the body of [`rendered_body`] — and
/// the complete diagnostic trail for the operator's log: the error's
/// display line, then one line per cause link, outermost to innermost,
/// each prefixed `"  -> "`. A token of any other failure class is handed
/// back unchanged for an outer handler; recovery never raises anything
/// new.
pub fn recover(r: Rejection) -> (res: Result<(Reply, Vec<String>), Rejection>)
    ensures
        r matches Rejection::Http(e) ==> (res matches Ok(p) && p.0@.status == e@.status
            && p.0@.body == rendered_body(e@) && p.1@.len() == 1 + e@.causes.len()
            && p.1@[0]@ == display_line_of(e@.status) && (forall|i: int|
            0 <= i < e@.causes.len() ==> p.1@[i + 1]@ == "  -> "@ + e@.causes[i])),
        r matches Rejection::Foreign(_) ==> res == Err::<(Reply, Vec<String>), Rejection>(r),
{
    match r {
        Rejection::Http(e) => {
            let mut lines: Vec<String> = Vec::new();
            lines.push(e.display_line());
            let mut cur: Option<&Cause> = e.cause();
            let ghost total: Seq<Seq<char>> = e@.causes;
            let ghost mut k: int = 0;
            proof {
                assert(total.skip(0) =~= total);
            }
            loop
                invariant
                    0 <= k <= total.len(),
                    lines@.len() == 1 + k,
                    lines@[0]@ == display_line_of(e@.status),
                    forall|i: int| 0 <= i < k ==> lines@[i + 1]@ == "  -> "@ + total[i],
                    cur matches Some(c) ==> c@ == total.skip(k),
                    cur is None ==> k == total.len(),
                ensures
                    lines@.len() == 1 + total.len(),
                    lines@[0]@ == display_line_of(e@.status),
                    forall|i: int| 0 <= i < total.len() ==> lines@[i + 1]@ == "  -> "@ + total[i],
                decreases total.len() - k,
            {
                match cur {
                    None => {
                        break ;
                    },
                    Some(c) => {
                        let line = "  -> ".to_owned().concat(c.description());
                        proof {
                            assert(c@.len() >= 1 && c@ == total.skip(k));
                            assert(k < total.len());
                            assert(c@[0] == total[k]);
                        }
                        lines.push(line);
                        cur = c.next();
                        proof {
                            assert(cur matches Some(inner) ==> inner@ == total.skip(k + 1)) by {
                                assert(total.skip(k).skip(1) =~= total.skip(k + 1));
                            }
                            k = k + 1;
                        }
                    },
                }
            }
            let body: String = match e.message() {
                Some(m) => m.to_owned(),
                None => match reason_phrase(e.status().code()) {
                    Some(p) => p.to_owned(),
                    None => String::new(),
                },
            };
            let reply = Reply { status: e.status(), body };
            Ok((reply, lines))
        },
        Rejection::Foreign(id) => Err(Rejection::Foreign(id)),
    }
}

} // verus!
