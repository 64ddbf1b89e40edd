//! Source locations: the file, line and column of a call site.

use crate::decimal::{decimal_digits, decimal_string};
use vstd::prelude::*;
use vstd::std_specs::cmp::PartialEqSpecImpl;

verus! {

/// Where an error was raised. Line and column count from 1.
///
/// A location is a plain value: it is taken down once, at the call site, and
/// nothing in this library changes it afterwards.
#[derive(Debug)]
pub struct Location {
    pub file: String,
    pub line: u32,
    pub column: u32,
}

/// What a `Location` holds, as mathematics.
pub struct LocationView {
    pub file: Seq<char>,
    pub line: u32,
    pub column: u32,
}

impl LocationView {
    /// The text that a location is shown as:
    /// `file: <file>, line: <line>, column: <column>`, the two numbers in
    /// decimal.
    pub open spec fn text(self) -> Seq<char> {
        "file: "@ + self.file + ", line: "@ + decimal_digits(self.line as nat) + ", column: "@
            + decimal_digits(self.column as nat)
    }
}

impl View for Location {
    type V = LocationView;

    open spec fn view(&self) -> LocationView {
        LocationView { file: self.file@, line: self.line, column: self.column }
    }
}

impl Clone for Location {
    fn clone(&self) -> (copy: Self)
        ensures
            copy == *self,
    {
        Location { file: self.file.clone(), line: self.line, column: self.column }
    }
}

impl PartialEq for Location {
    fn eq(&self, other: &Self) -> (equal: bool) {
        self.file == other.file && self.line == other.line && self.column == other.column
    }
}

impl PartialEqSpecImpl for Location {
    open spec fn obeys_eq_spec() -> bool {
        true
    }

    /// Two locations are equal when they name the same file, line and column.
    open spec fn eq_spec(&self, other: &Self) -> bool {
        self@ == other@
    }
}

impl Location {
    /// Shows the location as text.
    pub fn to_string(&self) -> (text: String)
        ensures
            text@ == self@.text(),
    {
        let mut text: String = "file: ".to_owned();
        text.append(self.file.as_str());
        text.append(", line: ");
        text.append(decimal_string(self.line).as_str());
        text.append(", column: ");
        text.append(decimal_string(self.column).as_str());
        text
    }
}

} // verus!
