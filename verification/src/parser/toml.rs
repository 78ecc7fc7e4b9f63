//! The error of reading or writing the settings.

use vstd::prelude::*;
use vstd::string::*;

verus! {

/// Why the settings could not be read from, or written as, TOML.
#[derive(Debug)]
pub enum ParseError {
    InvalidToml(String),
}

impl ParseError {
    /// The error in words.
    pub open spec fn text(self) -> Seq<char> {
        match self {
            ParseError::InvalidToml(detail) => "Invalid TOML: "@ + detail@,
        }
    }

    /// The error in words.
    pub fn message(&self) -> (r: String)
        ensures
            r@ == self.text(),
    {
        match self {
            ParseError::InvalidToml(detail) => {
                let mut r = "Invalid TOML: ".to_string();
                r.append(detail.as_str());
                r
            },
        }
    }
}

} // verus!
