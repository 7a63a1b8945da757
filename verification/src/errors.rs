//! The errors this engine reports.

use vstd::prelude::*;

verus! {

/// What can go wrong while subscribing to and processing ledger events.
#[derive(Debug)]
pub enum SuiEventSubscriberError {
    /// An event name that is not one of the known kinds.
    InvalidEvent(String),
    /// An event payload that does not have the shape its kind demands.
    DeserializeError,
    /// A cursor state file whose contents are not a valid encoding.
    DeserializeCursorError,
    /// A fault of the cursor state file itself (reported by the surrounding
    /// process, which owns the file handle).
    CursorFileError,
    /// The oracle's reply to a secret-generation request was unusable.
    GenerateSecretError,
}

impl SuiEventSubscriberError {
    /// A human-readable description of the error.
    pub fn message(&self) -> (r: String)
        ensures
            match self {
                SuiEventSubscriberError::InvalidEvent(s) => r@ == "Invalid event: "@ + s@,
                SuiEventSubscriberError::DeserializeError => r@
                    == "Failed to deserialize event"@,
                SuiEventSubscriberError::DeserializeCursorError => r@
                    == "Failed to deserialize cursor"@,
                SuiEventSubscriberError::CursorFileError => r@
                    == "Failed to read/write cursor to file"@,
                SuiEventSubscriberError::GenerateSecretError => r@
                    == "Failed to generate secret"@,
            },
    {
        match self {
            SuiEventSubscriberError::InvalidEvent(s) => {
                let mut m = String::from_str("Invalid event: ");
                m.append(s.as_str());
                m
            },
            SuiEventSubscriberError::DeserializeError => String::from_str(
                "Failed to deserialize event",
            ),
            SuiEventSubscriberError::DeserializeCursorError => String::from_str(
                "Failed to deserialize cursor",
            ),
            SuiEventSubscriberError::CursorFileError => String::from_str(
                "Failed to read/write cursor to file",
            ),
            SuiEventSubscriberError::GenerateSecretError => String::from_str(
                "Failed to generate secret",
            ),
        }
    }
}

} // verus!
