//! The error of a run, and the text that reports it.

use vstd::prelude::*;
use vstd::string::*;

verus! {

/// `std::io::Error`, carried through unopened: nothing is claimed of a value,
/// and the text that it shows itself as is whatever `to_string` returns.
#[verifier::external_type_specification]
#[verifier::external_body]
pub struct ExIoError(std::io::Error);

/// Why a run failed.
#[derive(Debug)]
pub enum RunError {
    /// A failure that is reported by its text alone.
    Generic(String),
    /// A file that could not be opened: its name and the cause.
    File(String, std::io::Error),
}

/// The report of a file that could not be opened, given the text of the
/// cause.
pub open spec fn file_error_text(name: Seq<char>, cause: Seq<char>) -> Seq<char> {
    "Error: "@ + name + ": "@ + cause
}

/// Builds the report of a file that could not be opened.
pub fn file_error_message(name: &str, cause: &str) -> (text: String)
    ensures
        text@ == file_error_text(name@, cause@),
{
    let mut text: String = String::from_str("Error: ");
    text.append(name);
    text.append(": ");
    text.append(cause);
    text
}

impl RunError {
    /// The line that reports this error.
    pub fn message(&self) -> (text: String)
        ensures
            match self {
                RunError::Generic(line) => text@ == line@,
                RunError::File(name, cause) => exists|shown: String|
                    to_string_from_display_ensures::<std::io::Error>(cause, shown) && text@
                        == file_error_text(name@, shown@),
            },
    {
        match self {
            RunError::Generic(line) => line.clone(),
            RunError::File(name, cause) => {
                let shown: String = cause.to_string();
                file_error_message(name.as_str(), shown.as_str())
            },
        }
    }
}

} // verus!
