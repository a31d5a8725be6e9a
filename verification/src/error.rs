//! The library's error type.

use vstd::prelude::*;
use vstd::string::*;

verus! {

/// Everything that can go wrong in one invocation.
#[derive(Debug)]
pub enum MenuError {
    /// The date token was malformed or names no real date.
    InvalidDate(String),
    /// The operating system could not launch a browser.
    BrowserError(String),
    /// The first argument is not one of the known command tokens.
    UnrecognizedCommand(String),
}

impl MenuError {
    /// Human-readable description, for the error stream.
    pub fn message(&self) -> (r: String)
        ensures
            self matches MenuError::InvalidDate(m) ==> r@ == "Invalid date: "@ + m@,
            self matches MenuError::BrowserError(m) ==> r@ == "Browser error: "@ + m@,
            self matches MenuError::UnrecognizedCommand(m) ==> r@ == "Unrecognized command: "@
                + m@,
    {
        match self {
            MenuError::InvalidDate(m) => String::from_str("Invalid date: ").concat(m.as_str()),
            MenuError::BrowserError(m) => String::from_str("Browser error: ").concat(m.as_str()),
            MenuError::UnrecognizedCommand(m) => String::from_str("Unrecognized command: ").concat(
                m.as_str(),
            ),
        }
    }
}

} // verus!
