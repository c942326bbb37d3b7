//! The error taxonomy: every failure of the library collapses to one of
//! these kinds, each carrying a human-readable message.

use vstd::prelude::*;

verus! {

/// One error kind per failure phase: engine compilation, page rendering,
/// package fetching/extraction, filesystem access, and malformed input.
#[derive(PartialEq, Debug)]
pub enum TypstError {
    CompileError(String),
    RenderError(String),
    PackageError(String),
    IoError(String),
    InvalidInput(String),
}

impl TypstError {
    /// The message carried by the error, without its kind prefix.
    pub open spec fn spec_message(&self) -> Seq<char> {
        match self {
            TypstError::CompileError(m) => m@,
            TypstError::RenderError(m) => m@,
            TypstError::PackageError(m) => m@,
            TypstError::IoError(m) => m@,
            TypstError::InvalidInput(m) => m@,
        }
    }

    /// The kind prefix used when the error is shown to a caller.
    pub open spec fn spec_prefix(&self) -> Seq<char> {
        match self {
            TypstError::CompileError(_) => "Compilation error: "@,
            TypstError::RenderError(_) => "Render error: "@,
            TypstError::PackageError(_) => "Package error: "@,
            TypstError::IoError(_) => "IO error: "@,
            TypstError::InvalidInput(_) => "Invalid input: "@,
        }
    }

    /// The full descriptive string for the outward boundary:
    /// the kind prefix followed by the message.
    pub fn message(&self) -> (r: String)
        ensures
            r@ == self.spec_prefix() + self.spec_message(),
    {
        let mut r = String::new();
        match self {
            TypstError::CompileError(m) => {
                r.append("Compilation error: ");
                r.append(m.as_str());
            },
            TypstError::RenderError(m) => {
                r.append("Render error: ");
                r.append(m.as_str());
            },
            TypstError::PackageError(m) => {
                r.append("Package error: ");
                r.append(m.as_str());
            },
            TypstError::IoError(m) => {
                r.append("IO error: ");
                r.append(m.as_str());
            },
            TypstError::InvalidInput(m) => {
                r.append("Invalid input: ");
                r.append(m.as_str());
            },
        }
        r
    }
}

} // verus!
