//! The status of an HTTP response, as far as a download reads it.
//!
//! An `HttpStatus` holds a code that `reqwest::StatusCode` accepts, from 100
//! to 999. Whether it is a success, and how it is worded, is asked of that
//! type.

use crate::text::decimal;
use vstd::prelude::*;

verus! {

/// What `http` prints after the number and the space when it displays the
/// status with this code: the canonical reason of the code, or a remark that
/// it has none.
pub uninterp spec fn reason_phrase(code: u16) -> Seq<char>;

/// A status as it is displayed: the code in decimal, a space, the reason.
pub open spec fn status_text(code: u16) -> Seq<char> {
    decimal(code as nat) + seq![' '] + reason_phrase(code)
}

/// The status code of an HTTP response.
#[derive(Clone, Copy, Debug, PartialEq, Eq)]
pub struct HttpStatus {
    code: u16,
}

impl HttpStatus {
    #[verifier::type_invariant]
    spec fn in_range(self) -> bool {
        100 <= self.code <= 999
    }

    /// The code.
    pub closed spec fn code(self) -> u16 {
        self.code
    }

    /// The status with this code, where the code is one: from 100 to 999.
    pub fn new(code: u16) -> (status: Option<HttpStatus>)
        ensures
            status is Some <==> 100 <= code <= 999,
            status matches Some(s) ==> s.code() == code,
    {
        if 100 <= code && code <= 999 {
            Some(HttpStatus { code })
        } else {
            None
        }
    }

    /// The code.
    pub fn as_u16(&self) -> (code: u16)
        ensures
            code == self.code(),
            100 <= code <= 999,
    {
        proof {
            use_type_invariant(self);
        }
        self.code
    }

    /// Whether the status is a success: a code from 200 to 299.
    pub fn is_success(&self) -> (yes: bool)
        ensures
            yes == (200 <= self.code() <= 299),
    {
        proof {
            use_type_invariant(self);
        }
        code_is_success(self.code)
    }

    /// The status as it is displayed, such as `404 Not Found`.
    pub fn describe(&self) -> (text: String)
        ensures
            text@ == status_text(self.code()),
    {
        proof {
            use_type_invariant(self);
        }
        display_code(self.code)
    }
}

/// Calls `StatusCode::is_success` on the `reqwest::StatusCode` that
/// `StatusCode::from_u16` makes of `code`.
///
/// Believed, not proved: a status is a success where its code lies from 200
/// to 299.
#[verifier::external_body]
fn code_is_success(code: u16) -> (yes: bool)
    requires
        100 <= code <= 999,
    ensures
        yes == (200 <= code <= 299),
{
    match reqwest::StatusCode::from_u16(code) {
        Ok(status) => status.is_success(),
        Err(_) => false,
    }
}

/// Calls `Display` of the `reqwest::StatusCode` that `StatusCode::from_u16`
/// makes of `code`.
///
/// Believed, not proved: the text is the code in decimal, a space, and a
/// reason that depends on the code alone, here named `reason_phrase`.
#[verifier::external_body]
fn display_code(code: u16) -> (text: String)
    requires
        100 <= code <= 999,
    ensures
        text@ == decimal(code as nat) + seq![' '] + reason_phrase(code),
{
    match reqwest::StatusCode::from_u16(code) {
        Ok(status) => status.to_string(),
        Err(_) => String::new(),
    }
}

} // verus!
