//! HTTP status codes, as far as the client reads them.
use vstd::prelude::*;
use vstd::string::StringExecFns;

use crate::decimal::{decimal_text, format_unsigned};

verus! {

/// The status code of an HTTP response: a number from 100 to 999.
#[derive(Debug, Clone, Copy, PartialEq, Eq)]
pub struct HttpStatus {
    code: u16,
}

/// The reason phrase that `reqwest::StatusCode::canonical_reason` gives for
/// a status code; `None` where it has none.
pub uninterp spec fn canonical_reason(code: u16) -> Option<Seq<char>>;

/// Asks for the reason phrase of a status code, through
/// `reqwest::StatusCode::from_u16` and `canonical_reason`. The contract only
/// gives the answer its name.
#[verifier::external_body]
fn reason_phrase(code: u16) -> (r: Option<&'static str>)
    requires
        100 <= code <= 999,
    ensures
        match r {
            Some(phrase) => canonical_reason(code) == Some(phrase@),
            None => canonical_reason(code) is None,
        },
{
    match reqwest::StatusCode::from_u16(code) {
        Ok(status) => status.canonical_reason(),
        Err(_) => None,
    }
}

/// The line that shows a status code to a reader: the number, a space and
/// the reason phrase.
pub open spec fn status_line(code: u16) -> Seq<char> {
    decimal_text(code as nat) + " "@ + match canonical_reason(code) {
        Some(phrase) => phrase,
        None => "<unknown status code>"@,
    }
}

impl View for HttpStatus {
    type V = u16;

    closed spec fn view(&self) -> u16 {
        self.code
    }
}

impl HttpStatus {
    #[verifier::type_invariant]
    spec fn in_range(self) -> bool {
        100 <= self.code <= 999
    }

    /// Whether a code is in the 4xx or the 5xx class.
    pub open spec fn failure_code(code: u16) -> bool {
        400 <= code < 600
    }

    /// Accepts the numbers from 100 to 999.
    pub fn from_u16(code: u16) -> (r: Option<HttpStatus>)
        ensures
            r is Some <==> 100 <= code <= 999,
            r matches Some(status) ==> status@ == code,
    {
        if code < 100 || code >= 1000 {
            None
        } else {
            Some(HttpStatus { code })
        }
    }

    /// The number of the status.
    pub fn as_u16(&self) -> (code: u16)
        ensures
            code == self@,
            100 <= code <= 999,
    {
        proof {
            use_type_invariant(self);
        }
        self.code
    }

    /// Whether the status is in the 4xx class.
    pub fn is_client_error(&self) -> (b: bool)
        ensures
            b == (400 <= self@ < 500),
    {
        400 <= self.code && self.code < 500
    }

    /// Whether the status is in the 5xx class.
    pub fn is_server_error(&self) -> (b: bool)
        ensures
            b == (500 <= self@ < 600),
    {
        500 <= self.code && self.code < 600
    }

    /// Whether the status tells of a failed request: 4xx or 5xx.
    pub fn is_failure(&self) -> (b: bool)
        ensures
            b == Self::failure_code(self@),
    {
        self.is_client_error() || self.is_server_error()
    }

    /// Writes the status as a reader sees it, such as `404 Not Found`.
    pub fn to_string(&self) -> (s: String)
        ensures
            s@ == status_line(self@),
    {
        let code = self.as_u16();
        let mut s = format_unsigned(code as u64);
        s.append(" ");
        match reason_phrase(code) {
            Some(phrase) => s.append(phrase),
            None => s.append("<unknown status code>"),
        }
        s
    }
}

} // verus!
