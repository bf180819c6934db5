//! The status code of a response.

use vstd::prelude::*;

verus! {

/// The text that the HTTP library prints for a status code: the number, a
/// space, and the standard reason phrase of that number, or a stand-in
/// where the number has none. This names the result of the `Display` impl
/// of `reqwest::StatusCode`.
pub uninterp spec fn status_line(code: u16) -> Seq<char>;

/// The character of a decimal digit.
pub open spec fn digit(value: int) -> char {
    ((48 + value) as u8) as char
}

/// The three decimal digits of a status code.
pub open spec fn code_digits(code: u16) -> Seq<char> {
    seq![digit(code as int / 100), digit(code as int / 10 % 10), digit(code as int % 10)]
}

/// Calls `reqwest::StatusCode::from_u16` and prints the status with its
/// `Display` impl. `from_u16` takes the numbers 100 to 999 and no others.
/// What `Display` prints is named by `status_line`: the number, which has
/// three digits, a space, and a reason phrase that is never empty.
#[verifier::external_body]
fn status_code_text(code: u16) -> (text: Option<String>)
    ensures
        text is Some <==> 100 <= code <= 999,
        text matches Some(line) ==> {
            &&& line@ == status_line(code)
            &&& line@.len() > 4
            &&& line@.subrange(0, 3) == code_digits(code)
            &&& line@[3] == ' '
        },
{
    match reqwest::StatusCode::from_u16(code) {
        Ok(status) => Some(status.to_string()),
        Err(_) => None,
    }
}

/// A status code: a number from 100 to 999.
#[derive(Debug, Clone, Copy, PartialEq, Eq)]
pub struct HttpStatus {
    code: u16,
}

impl HttpStatus {
    #[verifier::type_invariant]
    spec fn three_digits(&self) -> bool {
        100 <= self.code <= 999
    }

    /// The number of the status.
    pub closed spec fn code(&self) -> u16 {
        self.code
    }

    /// The status with the number `code`, where `code` has three digits.
    pub fn from_u16(code: u16) -> (status: Option<HttpStatus>)
        ensures
            status is Some <==> 100 <= code <= 999,
            status matches Some(s) ==> s.code() == code,
    {
        if 100 <= code && code <= 999 {
            Some(HttpStatus { code })
        } else {
            None
        }
    }

    /// The number of the status.
    pub fn as_u16(&self) -> (code: u16)
        ensures
            code == self.code(),
            100 <= code <= 999,
    {
        proof {
            use_type_invariant(self);
        }
        self.code
    }

    /// Whether the status is in the range 200 to 299.
    pub fn is_success(&self) -> (success: bool)
        ensures
            success == (200 <= self.code() < 300),
    {
        200 <= self.code && self.code < 300
    }

    /// The status as the HTTP library prints it, such as `404 Not Found`.
    pub fn to_text(&self) -> (text: String)
        ensures
            text@ == status_line(self.code()),
            text@.len() > 4,
            text@.subrange(0, 3) == code_digits(self.code()),
            text@[3] == ' ',
    {
        proof {
            use_type_invariant(self);
        }
        match status_code_text(self.code) {
            Some(text) => text,
            None => vstd::pervasive::unreached(),
        }
    }
}

} // verus!
