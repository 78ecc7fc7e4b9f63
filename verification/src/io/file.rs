//! The errors of reading and writing the settings file.

use vstd::prelude::*;
use vstd::string::*;

verus! {

/// Why the settings file could not be read or written.
#[derive(Debug)]
pub enum FileError {
    ReadFailed(String),
    WriteFailed(String),
    NotFound,
}

impl FileError {
    /// The error in words.
    pub open spec fn text(self) -> Seq<char> {
        match self {
            FileError::ReadFailed(detail) => "Failed to read file: "@ + detail@,
            FileError::WriteFailed(detail) => "Failed to write file: "@ + detail@,
            FileError::NotFound => "File not found"@,
        }
    }

    /// The error in words.
    pub fn message(&self) -> (r: String)
        ensures
            r@ == self.text(),
    {
        match self {
            FileError::ReadFailed(detail) => {
                let mut r = "Failed to read file: ".to_string();
                r.append(detail.as_str());
                r
            },
            FileError::WriteFailed(detail) => {
                let mut r = "Failed to write file: ".to_string();
                r.append(detail.as_str());
                r
            },
            FileError::NotFound => "File not found".to_string(),
        }
    }

    /// The error for a settings file that could not be read: a missing
    /// file is told apart from every other failure, which keeps its
    /// description.
    pub fn from_read_failure(missing: bool, detail: String) -> (r: Self)
        ensures
            missing ==> r == FileError::NotFound,
            !missing ==> r == FileError::ReadFailed(detail),
    {
        if missing {
            FileError::NotFound
        } else {
            FileError::ReadFailed(detail)
        }
    }
}

} // verus!
