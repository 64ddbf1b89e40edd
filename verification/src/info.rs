//! Error information: a fresh identifier and the place where the error was
//! raised.

use crate::idgen::{is_uuid_text, IdGen};
use crate::location::{Location, LocationView};
use vstd::prelude::*;
use vstd::std_specs::cmp::PartialEqSpecImpl;

verus! {

/// The tag of one error occurrence: its identifier and its source location.
///
/// It is made once, where the error is raised, and carried along unchanged,
/// inside the error value or beside it.
#[derive(Debug)]
pub struct ErrorInfo {
    pub errorid: String,
    pub location: Location,
}

/// What an `ErrorInfo` holds, as mathematics.
pub struct ErrorInfoView {
    pub errorid: Seq<char>,
    pub location: LocationView,
}

impl ErrorInfoView {
    /// The text that an error information is shown as:
    /// `errorid: <identifier>, location: (<location>)`.
    pub open spec fn text(self) -> Seq<char> {
        "errorid: "@ + self.errorid + ", location: ("@ + self.location.text() + ")"@
    }

    /// The information taken down at `file`, `line`, `column` under the
    /// identifier `errorid`.
    pub open spec fn at(errorid: Seq<char>, file: Seq<char>, line: u32, column: u32) -> Self {
        ErrorInfoView { errorid, location: LocationView { file, line, column } }
    }

    /// Whether this is what a capture at `file`, `line`, `column` may hand
    /// out: exactly that location, under some identifier from the generator.
    pub open spec fn captured_at(self, file: Seq<char>, line: u32, column: u32) -> bool {
        &&& self.location == (LocationView { file, line, column })
        &&& is_uuid_text(self.errorid)
    }
}

impl View for ErrorInfo {
    type V = ErrorInfoView;

    open spec fn view(&self) -> ErrorInfoView {
        ErrorInfoView { errorid: self.errorid@, location: self.location@ }
    }
}

impl Clone for ErrorInfo {
    fn clone(&self) -> (copy: Self)
        ensures
            copy == *self,
    {
        ErrorInfo { errorid: self.errorid.clone(), location: self.location.clone() }
    }
}

impl PartialEq for ErrorInfo {
    fn eq(&self, other: &Self) -> (equal: bool) {
        self.errorid == other.errorid && self.location == other.location
    }
}

impl PartialEqSpecImpl for ErrorInfo {
    open spec fn obeys_eq_spec() -> bool {
        true
    }

    /// Two error informations are equal when they hold the same identifier
    /// and the same location.
    open spec fn eq_spec(&self, other: &Self) -> bool {
        self@ == other@
    }
}

impl ErrorInfo {
    /// Puts an identifier that is already at hand together with a call site.
    pub fn new(errorid: String, file: &str, line: u32, column: u32) -> (info: Self)
        ensures
            info@ == ErrorInfoView::at(errorid@, file@, line, column),
    {
        ErrorInfo { errorid, location: Location { file: file.to_owned(), line, column } }
    }

    /// Captures an error at the call site `file`, `line`, `column`: the
    /// location is exactly what the caller passed, and the identifier is a
    /// fresh random one from the generator. Capturing never fails.
    pub fn errorinfo(file: &str, line: u32, column: u32) -> (info: Self)
        ensures
            info@.captured_at(file@, line, column),
    {
        let errorid: String = IdGen::new().get();
        ErrorInfo::new(errorid, file, line, column)
    }

    /// Captures an error that is reported at the severity "info".
    pub fn info(file: &str, line: u32, column: u32) -> (info: Self)
        ensures
            info@.captured_at(file@, line, column),
    {
        ErrorInfo::errorinfo(file, line, column)
    }

    /// Captures an error that is reported at the severity "warn".
    pub fn warn(file: &str, line: u32, column: u32) -> (info: Self)
        ensures
            info@.captured_at(file@, line, column),
    {
        ErrorInfo::errorinfo(file, line, column)
    }

    /// Captures an error that is reported at the severity "error".
    pub fn error(file: &str, line: u32, column: u32) -> (info: Self)
        ensures
            info@.captured_at(file@, line, column),
    {
        ErrorInfo::errorinfo(file, line, column)
    }

    /// Captures an error that is reported at the severity "debug".
    pub fn debug(file: &str, line: u32, column: u32) -> (info: Self)
        ensures
            info@.captured_at(file@, line, column),
    {
        ErrorInfo::errorinfo(file, line, column)
    }

    /// Captures an error that is reported at the severity "trace".
    pub fn trace(file: &str, line: u32, column: u32) -> (info: Self)
        ensures
            info@.captured_at(file@, line, column),
    {
        ErrorInfo::errorinfo(file, line, column)
    }

    /// Shows the error information as text.
    pub fn to_string(&self) -> (text: String)
        ensures
            text@ == self@.text(),
    {
        let mut text: String = "errorid: ".to_owned();
        text.append(self.errorid.as_str());
        text.append(", location: (");
        text.append(self.location.to_string().as_str());
        text.append(")");
        text
    }
}

} // verus!
