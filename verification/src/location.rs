//! The source position attached to an assertion: a file name and a line
//! number, rendered on one line as `at <file>:<line>`.

use vstd::prelude::*;

use crate::text::{decimal, spec_decimal};

verus! {

/// An immutable source position: a file name and a line number.
#[derive(Debug)]
pub struct Location {
    pub(crate) file: &'static str,
    pub(crate) line: u32,
}

/// The mathematical value of a [`Location`]: its file name's characters and
/// its line number.
pub ghost struct LocationView {
    pub file: Seq<char>,
    pub line: u32,
}

impl View for Location {
    type V = LocationView;

    closed spec fn view(&self) -> LocationView {
        LocationView { file: self.file@, line: self.line }
    }
}

/// The fixed one-line rendering of a location: `at <file>:<line>`.
pub open spec fn spec_location_line(l: LocationView) -> Seq<char> {
    "at "@ + l.file + ":"@ + spec_decimal(l.line as int)
}

impl Location {
    /// Builds a location from a file name and a line number.
    pub fn new(file: &'static str, line: u32) -> (r: Location)
        ensures
            r@ == (LocationView { file: file@, line }),
    {
        Location { file, line }
    }

    /// Renders the location as `at <file>:<line>`.
    pub fn render(&self) -> (r: String)
        ensures
            r@ == spec_location_line(self@),
    {
        let mut r = "at ".to_owned();
        r.append(self.file);
        r.append(":");
        let line = decimal(self.line);
        r.append(line.as_str());
        r
    }
}

} // verus!
