//! HTTP status codes and their canonical reason phrases.

use vstd::prelude::*;
use vstd::string::StringExecFns;

verus! {

/// An HTTP status code in the range the pipeline accepts (100..=599).
#[derive(Clone, Copy, Debug, PartialEq, Eq, Structural)]
pub struct StatusCode {
    code: u16,
}

impl View for StatusCode {
    type V = u16;

    closed spec fn view(&self) -> u16 {
        self.code
    }
}

impl StatusCode {
    #[verifier::type_invariant]
    spec fn in_range(self) -> bool {
        100 <= self.code <= 599
    }

    /// Validates a raw numeric code; `Some` exactly for codes in 100..=599.
    pub fn from_u16(code: u16) -> (r: Option<StatusCode>)
        ensures
            r is Some <==> 100 <= code <= 599,
            r matches Some(s) ==> s@ == code,
    {
        if 100 <= code && code <= 599 {
            Some(StatusCode { code })
        } else {
            None
        }
    }

    /// The numeric value of the status code.
    pub fn code(&self) -> (r: u16)
        ensures
            r == self@,
    {
        self.code
    }

    pub fn ok() -> (r: StatusCode)
        ensures
            r@ == 200,
    {
        StatusCode { code: 200 }
    }

    pub fn no_content() -> (r: StatusCode)
        ensures
            r@ == 204,
    {
        StatusCode { code: 204 }
    }

    pub fn bad_request() -> (r: StatusCode)
        ensures
            r@ == 400,
    {
        StatusCode { code: 400 }
    }

    pub fn forbidden() -> (r: StatusCode)
        ensures
            r@ == 403,
    {
        StatusCode { code: 403 }
    }

    pub fn not_found() -> (r: StatusCode)
        ensures
            r@ == 404,
    {
        StatusCode { code: 404 }
    }

    pub fn internal_server_error() -> (r: StatusCode)
        ensures
            r@ == 500,
    {
        StatusCode { code: 500 }
    }
}

/// The decimal digit character for a value below ten.
pub open spec fn digit_char(d: u16) -> char {
    if d == 0 {
        '0'
    } else if d == 1 {
        '1'
    } else if d == 2 {
        '2'
    } else if d == 3 {
        '3'
    } else if d == 4 {
        '4'
    } else if d == 5 {
        '5'
    } else if d == 6 {
        '6'
    } else if d == 7 {
        '7'
    } else if d == 8 {
        '8'
    } else {
        '9'
    }
}

/// The three decimal digits of a status code, most significant first.
/// Status codes lie in 100..=599, so three digits always suffice.
pub open spec fn decimal3(code: u16) -> Seq<char> {
    seq![
        digit_char(code / 100 % 10),
        digit_char(code / 10 % 10),
        digit_char(code % 10),
    ]
}

fn digit_str(d: u16) -> (s: &'static str)
    requires
        d < 10,
    ensures
        s@ == seq![digit_char(d)],
{
    let s: &'static str = if d == 0 {
        proof { reveal_strlit("0"); }
        "0"
    } else if d == 1 {
        proof { reveal_strlit("1"); }
        "1"
    } else if d == 2 {
        proof { reveal_strlit("2"); }
        "2"
    } else if d == 3 {
        proof { reveal_strlit("3"); }
        "3"
    } else if d == 4 {
        proof { reveal_strlit("4"); }
        "4"
    } else if d == 5 {
        proof { reveal_strlit("5"); }
        "5"
    } else if d == 6 {
        proof { reveal_strlit("6"); }
        "6"
    } else if d == 7 {
        proof { reveal_strlit("7"); }
        "7"
    } else if d == 8 {
        proof { reveal_strlit("8"); }
        "8"
    } else {
        proof { reveal_strlit("9"); }
        "9"
    };
    proof {
        assert(s@ =~= seq![digit_char(d)]);
    }
    s
}

/// Renders a status code as its three decimal digits.
pub fn decimal3_str(code: u16) -> (s: String)
    ensures
        s@ == decimal3(code),
{
    let mut s = String::new();
    s.append(digit_str(code / 100 % 10));
    s.append(digit_str(code / 10 % 10));
    s.append(digit_str(code % 10));
    proof {
        assert(s@ =~= decimal3(code));
    }
    s
}

/// The canonical reason phrase of a numeric status code, `None` where the
/// standard defines none. The phrase is a fixed table keyed by the code
/// alone; this name stands for that table.
pub uninterp spec fn reason_of(code: u16) -> Option<Seq<char>>;

/// Relies on `http::StatusCode::canonical_reason`: the canonical reason
/// phrase is a fixed table keyed by the numeric code alone.
/// `http::StatusCode::from_u16` only converts the number, failing on codes
/// outside http's valid range, which have no phrase.
#[verifier::external_body]
pub(crate) fn reason_phrase(code: u16) -> (r: Option<&'static str>)
    ensures
        r matches Some(p) ==> reason_of(code) == Some(p@),
        r is None ==> reason_of(code) is None,
{
    match http::StatusCode::from_u16(code) {
        Ok(s) => s.canonical_reason(),
        Err(_) => None,
    }
}

} // verus!
