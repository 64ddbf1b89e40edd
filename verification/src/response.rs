//! The parts of an HTTP error response: what the client is sent, and what
//! stays on the server.

use crate::decimal::{digit_char, lemma_three_digits};
use crate::info::{ErrorInfo, ErrorInfoView};
use crate::status::{
    canonical_reason_of, description_text, is_status_code, status_description, StatusCode,
};
use vstd::prelude::*;

verus! {

/// The payload of an error response. It names the status and the error's
/// identifier and has no place for a file, a line or a column: where an
/// error was raised is never sent to a client.
#[derive(Debug)]
pub struct ErrorBody {
    pub status_code: u16,
    pub status_description: String,
    pub error_id: String,
}

/// What an `ErrorBody` holds, as mathematics.
pub struct ErrorBodyView {
    pub status_code: u16,
    pub status_description: Seq<char>,
    pub error_id: Seq<char>,
}

impl ErrorBodyView {
    /// The payload for the status with the number `code`, whose registered
    /// reason phrase is `reason`, and the error with the identifier
    /// `error_id`. A status without a phrase is described by its number.
    pub open spec fn of(code: u16, reason: Option<Seq<char>>, error_id: Seq<char>) -> Self {
        ErrorBodyView {
            status_code: code,
            status_description: description_text(code, reason),
            error_id,
        }
    }

    /// The payload that reports the error `info` under the status with the
    /// number `code`: the status's number, its description by the `http`
    /// crate's table of reason phrases, and the error's identifier.
    pub open spec fn reporting(code: u16, info: ErrorInfoView) -> Self {
        Self::of(code, canonical_reason_of(code), info.errorid)
    }
}

impl View for ErrorBody {
    type V = ErrorBodyView;

    open spec fn view(&self) -> ErrorBodyView {
        ErrorBodyView {
            status_code: self.status_code,
            status_description: self.status_description@,
            error_id: self.error_id@,
        }
    }
}

/// An error response before it is handed to the HTTP framework: the status,
/// the payload for the client, and the full error information, which travels
/// with the response on the server side only.
#[derive(Debug)]
pub struct ErrorResponse {
    pub status: StatusCode,
    pub body: ErrorBody,
    pub error_info: ErrorInfo,
}

/// What an `ErrorResponse` holds, as mathematics.
pub struct ErrorResponseView {
    pub status: u16,
    pub body: ErrorBodyView,
    pub error_info: ErrorInfoView,
}

impl View for ErrorResponse {
    type V = ErrorResponseView;

    open spec fn view(&self) -> ErrorResponseView {
        ErrorResponseView {
            status: self.status@,
            body: self.body@,
            error_info: self.error_info@,
        }
    }
}

/// A status for which no reason phrase is registered still gets a payload:
/// its description is then the three digits of the status's number.
pub proof fn lemma_unregistered_status_is_described_by_its_digits(code: u16, info: ErrorInfoView)
    requires
        is_status_code(code),
        canonical_reason_of(code) is None,
    ensures
        ErrorBodyView::reporting(code, info).status_description == seq![
            digit_char((code / 100) as nat),
            digit_char(((code / 10) % 10) as nat),
            digit_char((code % 10) as nat),
        ],
{
    lemma_three_digits(code as nat);
}

/// Where an error was raised does not reach the client: two errors with the
/// same identifier get the same payload under the same status, whatever
/// their locations are.
pub proof fn lemma_payload_hides_the_location(code: u16, one: ErrorInfoView, other: ErrorInfoView)
    requires
        one.errorid == other.errorid,
    ensures
        ErrorBodyView::reporting(code, one) == ErrorBodyView::reporting(code, other),
{
}

/// The payload for a captured error names that error: its `error_id` is the
/// identifier that the capture handed out, which is never empty.
pub proof fn lemma_payload_names_the_captured_error(
    code: u16,
    info: ErrorInfoView,
    file: Seq<char>,
    line: u32,
    column: u32,
)
    requires
        info.captured_at(file, line, column),
    ensures
        ErrorBodyView::reporting(code, info).status_code == code,
        ErrorBodyView::reporting(code, info).error_id == info.errorid,
        ErrorBodyView::reporting(code, info).error_id.len() > 0,
{
}

/// The payload that reports `error_info` under `status`: the status's
/// number, its registered reason phrase (its number as text, where none is
/// registered), and the error's identifier.
pub fn error_body(status: StatusCode, error_info: &ErrorInfo) -> (body: ErrorBody)
    ensures
        body@ == ErrorBodyView::reporting(status@, error_info@),
{
    ErrorBody {
        status_code: status.as_u16(),
        status_description: status_description(status, status.canonical_reason()),
        error_id: error_info.errorid.clone(),
    }
}

/// The response that reports `error_info` under the status `s`. It carries
/// `s`, the payload of `error_body`, and beside them the error information
/// exactly as it was passed in. This never fails.
pub fn err_resp(s: StatusCode, error_info: &ErrorInfo) -> (response: ErrorResponse)
    ensures
        response@ == (ErrorResponseView {
            status: s@,
            body: ErrorBodyView::reporting(s@, error_info@),
            error_info: error_info@,
        }),
{
    ErrorResponse { status: s, body: error_body(s, error_info), error_info: error_info.clone() }
}

} // verus!
