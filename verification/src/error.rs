//! The closed set of failures this library reports.
use vstd::prelude::*;
use vstd::string::StringExecFns;

verus! {

/// Why an operation of this library failed.
///
/// A throttled request is not an error: it is a successful decision.
#[derive(Debug, Clone, PartialEq, Eq)]
pub enum Error {
    /// Time interval with zero duration is not supported.
    ZeroTimeInterval,
    /// Invalid rate limiting rule.
    InvalidRule(String),
    /// Internal error: anything that failed below the library (transport,
    /// script evaluation, a reply of unexpected shape).
    Internal(String),
}

impl Error {
    /// The text that describes this error to a human reader.
    pub open spec fn text(self) -> Seq<char> {
        match self {
            Error::ZeroTimeInterval => "Time interval with zero duration is not supported"@,
            Error::InvalidRule(msg) => "Invalid rate limiting rule: "@ + msg@,
            Error::Internal(err) => "Internal error: "@ + err@,
        }
    }

    /// Renders the error as text.
    pub fn to_string(&self) -> (s: String)
        ensures
            s@ == self.text(),
    {
        match self {
            Error::ZeroTimeInterval => String::from_str(
                "Time interval with zero duration is not supported",
            ),
            Error::InvalidRule(msg) => String::from_str("Invalid rate limiting rule: ").concat(
                msg.as_str(),
            ),
            Error::Internal(err) => String::from_str("Internal error: ").concat(err.as_str()),
        }
    }
}

} // verus!
