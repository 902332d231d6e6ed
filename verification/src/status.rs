//! The status of a response, and the line that stands for it in a summary.

use crate::decimal::decimal;
use reqwest::StatusCode;
use vstd::prelude::*;

verus! {

/// The least number that is a status code.
pub const MIN_STATUS: u16 = 100;

/// The greatest number that is a status code.
pub const MAX_STATUS: u16 = 999;

/// The reason phrase that the transport prints after a status code.
pub uninterp spec fn reason_phrase(code: u16) -> Seq<char>;

/// A status in words: the code in decimal, a space, and its reason phrase.
pub open spec fn status_text(code: u16) -> Seq<char> {
    decimal(code as int) + seq![' '] + reason_phrase(code)
}

/// `StatusCode::from_u16`, then the status code's `Display`: the number,
/// a space, and the code's canonical reason phrase or a stand-in for it.
#[verifier::external_body]
fn display_status(code: u16) -> (line: String)
    requires
        MIN_STATUS <= code <= MAX_STATUS,
    ensures
        line@ == decimal(code as int) + seq![' '] + reason_phrase(code),
{
    StatusCode::from_u16(code).unwrap().to_string()
}

/// An HTTP status code: a number from `MIN_STATUS` to `MAX_STATUS`.
#[derive(Debug, Clone, Copy, PartialEq, Eq)]
pub struct Status {
    code: u16,
}

impl View for Status {
    type V = u16;

    closed spec fn view(&self) -> u16 {
        self.code
    }
}

impl Status {
    #[verifier::type_invariant]
    spec fn in_range(self) -> bool {
        MIN_STATUS <= self.code <= MAX_STATUS
    }

    /// The status with the given code, if it is one.
    pub fn new(code: u16) -> (status: Option<Status>)
        ensures
            status is Some <==> MIN_STATUS <= code <= MAX_STATUS,
            status matches Some(s) ==> s@ == code,
    {
        if MIN_STATUS <= code && code <= MAX_STATUS {
            Some(Status { code })
        } else {
            None
        }
    }

    /// The code as a number.
    pub fn code(&self) -> (code: u16)
        ensures
            code == self@,
            MIN_STATUS <= code <= MAX_STATUS,
    {
        proof {
            use_type_invariant(self);
        }
        self.code
    }

    /// The status as it stands in a summary.
    pub fn line(&self) -> (line: String)
        ensures
            line@ == status_text(self@),
    {
        proof {
            use_type_invariant(self);
        }
        display_status(self.code)
    }
}

} // verus!
