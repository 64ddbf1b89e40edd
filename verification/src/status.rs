//! HTTP status codes and the words that describe them.

use crate::decimal::decimal_digits;
use vstd::prelude::*;

verus! {

/// The numbers that can be an HTTP status code: three decimal digits, the
/// first of them not zero.
pub open spec fn is_status_code(code: u16) -> bool {
    100 <= code <= 999
}

/// The reason phrase that `http::StatusCode::canonical_reason` gives for the
/// status with the number `code`, or `None` where that table has no entry for
/// it. The table is the `http` crate's and is not written out here.
pub uninterp spec fn canonical_reason_of(code: u16) -> Option<Seq<char>>;

/// What an optional phrase holds, as mathematics.
pub open spec fn phrase_view(phrase: Option<&str>) -> Option<Seq<char>> {
    match phrase {
        Some(words) => Some(words@),
        None => None,
    }
}

/// Makes the `http::StatusCode` with the number `code` (`from_u16`, which
/// takes every number from 100 to 999) and calls `canonical_reason` on it.
///
/// Trusted, not proved: the result is the table's entry for `code`, which
/// depends on `code` alone and goes by the name `canonical_reason_of`.
/// With `code` in range `from_u16` does not fail, so the second arm is never
/// taken.
#[verifier::external_body]
fn reason_phrase(code: u16) -> (reason: Option<&'static str>)
    requires
        is_status_code(code),
    ensures
        phrase_view(reason) == canonical_reason_of(code),
{
    match http::StatusCode::from_u16(code) {
        Ok(status) => status.canonical_reason(),
        Err(_) => None,
    }
}

/// Makes the `http::StatusCode` with the number `code` (`from_u16`, which
/// takes every number from 100 to 999) and calls `as_str` on it.
///
/// Trusted, not proved: the result is the decimal numeral of `code`, which
/// has three digits. `as_str` cuts it out of a text that lists the numerals
/// of 100 to 999 one after the other. With `code` in range `from_u16` does
/// not fail, so the second arm is never taken.
#[verifier::external_body]
fn code_text(code: u16) -> (text: String)
    requires
        is_status_code(code),
    ensures
        text@ == decimal_digits(code as nat),
{
    match http::StatusCode::from_u16(code) {
        Ok(status) => status.as_str().to_owned(),
        Err(_) => String::new(),
    }
}

/// An HTTP status code: a number from 100 to 999.
#[derive(Clone, Copy, Debug, PartialEq, Eq, Structural)]
pub struct StatusCode {
    code: u16,
}

impl View for StatusCode {
    type V = u16;

    closed spec fn view(&self) -> u16 {
        self.code
    }
}

impl StatusCode {
    #[verifier::type_invariant]
    spec fn in_range(self) -> bool {
        is_status_code(self.code)
    }

    /// The status with the number `code`, if there is one.
    pub fn from_u16(code: u16) -> (status: Option<StatusCode>)
        ensures
            status is Some <==> is_status_code(code),
            status matches Some(found) ==> found@ == code,
    {
        if 100 <= code && code <= 999 {
            Some(StatusCode { code })
        } else {
            None
        }
    }

    /// The status's number.
    pub fn as_u16(&self) -> (code: u16)
        ensures
            code == self@,
            is_status_code(code),
    {
        proof {
            use_type_invariant(self);
        }
        self.code
    }

    /// The status's number as text: its three decimal digits.
    pub fn digits(&self) -> (text: String)
        ensures
            text@ == decimal_digits(self@ as nat),
    {
        proof {
            use_type_invariant(self);
        }
        code_text(self.code)
    }

    /// The reason phrase that is registered for the status, if any.
    pub fn canonical_reason(&self) -> (reason: Option<&'static str>)
        ensures
            phrase_view(reason) == canonical_reason_of(self@),
    {
        proof {
            use_type_invariant(self);
        }
        reason_phrase(self.code)
    }
}

/// The text that describes a status to a human reader: its reason phrase, or
/// its number where it has none.
pub open spec fn description_text(code: u16, reason: Option<Seq<char>>) -> Seq<char> {
    match reason {
        Some(phrase) => phrase,
        None => decimal_digits(code as nat),
    }
}

/// Describes `status`, given the reason phrase that was looked up for it:
/// the phrase itself, or the status's number where none was found.
pub fn status_description(status: StatusCode, reason: Option<&str>) -> (text: String)
    ensures
        text@ == description_text(status@, phrase_view(reason)),
{
    match reason {
        Some(phrase) => phrase.to_owned(),
        None => status.digits(),
    }
}

} // verus!
