//! Status codes and what a response takes from them.

use vstd::prelude::*;
use vstd::string::*;

verus! {

/// What a status representation gives a response: its number, whether it
/// is a success, and the texts that describe it.
pub trait ResponseCode: Sized {
    spec fn spec_status_code(&self) -> u16;

    spec fn spec_is_success(&self) -> bool;

    spec fn spec_type_uri(&self) -> Option<Seq<char>>;

    spec fn spec_title(&self) -> Option<Seq<char>>;

    spec fn spec_error_code(&self) -> Option<Seq<char>>;

    spec fn spec_message(&self) -> Option<Seq<char>>;

    /// The code for a plain success.
    fn ok() -> (r: Self)
        ensures
            r.spec_is_success(),
    ;

    /// The code for a request that failed validation.
    fn bad_request() -> (r: Self)
        ensures
            !r.spec_is_success(),
    ;

    /// The code for a failure on the server's side.
    fn internal_server_error() -> (r: Self)
        ensures
            !r.spec_is_success(),
    ;

    fn status_code(&self) -> (r: u16)
        ensures
            r == self.spec_status_code(),
    ;

    fn is_success(&self) -> (r: bool)
        ensures
            r == self.spec_is_success(),
    ;

    fn type_uri(&self) -> (r: Option<String>)
        ensures
            crate::timing::opt_view(r) == self.spec_type_uri(),
    ;

    fn title(&self) -> (r: Option<String>)
        ensures
            crate::timing::opt_view(r) == self.spec_title(),
    ;

    fn error_code(&self) -> (r: Option<String>)
        ensures
            crate::timing::opt_view(r) == self.spec_error_code(),
    ;

    /// The default text of a response with this code.
    fn message(&self) -> (r: Option<String>)
        ensures
            crate::timing::opt_view(r) == self.spec_message(),
    ;
}

/// The standard reason phrase that the HTTP registry gives a status code.
pub uninterp spec fn canonical_reason_of(code: u16) -> Option<Seq<char>>;

/// Relies on http::StatusCode::canonical_reason: the registered reason phrase
/// of a code in 100..=999, if it has one.
#[verifier::external_body]
fn canonical_reason(code: u16) -> (r: Option<&'static str>)
    requires
        100 <= code <= 999,
    ensures
        match r {
            Some(s) => canonical_reason_of(code) == Some(s@),
            None => canonical_reason_of(code) is None,
        },
{
    match http::StatusCode::from_u16(code) {
        Ok(status) => status.canonical_reason(),
        Err(_) => None,
    }
}

/// An HTTP status code; a valid one is in 100..=999.
#[derive(Clone, Copy, Debug, PartialEq, Eq, Structural)]
pub struct StatusCode {
    pub code: u16,
}

impl StatusCode {
    /// The number of this code.
    pub open spec fn value(&self) -> u16 {
        self.code
    }

    /// A code in the valid range.
    pub open spec fn wf(&self) -> bool {
        100 <= self.code <= 999
    }

    /// The code for `code`, or `None` outside 100..=999.
    pub fn from_u16(code: u16) -> (r: Option<StatusCode>)
        ensures
            r == (if 100 <= code <= 999 { Some(StatusCode { code }) } else { None::<StatusCode> }),
    {
        if 100 <= code && code <= 999 {
            Some(StatusCode { code })
        } else {
            None
        }
    }

    /// The number of this code.
    pub fn as_u16(&self) -> (r: u16)
        ensures
            r == self.code,
    {
        self.code
    }

    /// The registered reason phrase of this code, if any.
    pub fn canonical_reason(&self) -> (r: Option<String>)
        ensures
            crate::timing::opt_view(r) == (if self.wf() { canonical_reason_of(self.code) } else { None }),
    {
        if 100 <= self.code && self.code <= 999 {
            match canonical_reason(self.code) {
                Some(s) => Some(String::from_str(s)),
                None => None,
            }
        } else {
            None
        }
    }
}

impl ResponseCode for StatusCode {
    open spec fn spec_status_code(&self) -> u16 {
        self.code
    }

    /// Success is the 2xx class.
    open spec fn spec_is_success(&self) -> bool {
        200 <= self.code <= 299
    }

    open spec fn spec_type_uri(&self) -> Option<Seq<char>> {
        None
    }

    /// A failure is titled by its reason phrase.
    open spec fn spec_title(&self) -> Option<Seq<char>> {
        if self.spec_is_success() {
            None
        } else {
            self.spec_message()
        }
    }

    open spec fn spec_error_code(&self) -> Option<Seq<char>> {
        None
    }

    /// The reason phrase.
    open spec fn spec_message(&self) -> Option<Seq<char>> {
        if self.wf() {
            canonical_reason_of(self.code)
        } else {
            None
        }
    }

    /// 200.
    fn ok() -> (r: Self) {
        StatusCode { code: 200 }
    }

    /// 400.
    fn bad_request() -> (r: Self) {
        StatusCode { code: 400 }
    }

    /// 500.
    fn internal_server_error() -> (r: Self) {
        StatusCode { code: 500 }
    }

    fn status_code(&self) -> (r: u16) {
        self.code
    }

    fn is_success(&self) -> (r: bool) {
        200 <= self.code && self.code <= 299
    }

    fn type_uri(&self) -> (r: Option<String>) {
        None
    }

    fn title(&self) -> (r: Option<String>) {
        if self.is_success() {
            None
        } else {
            self.canonical_reason()
        }
    }

    fn error_code(&self) -> (r: Option<String>) {
        None
    }

    fn message(&self) -> (r: Option<String>) {
        self.canonical_reason()
    }
}

} // verus!
