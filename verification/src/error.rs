//! The errors that the notification service reports to its callers.

use vstd::prelude::*;

verus! {

/// Why a request to the notification service failed.
#[derive(Debug, Clone, Copy, PartialEq, Eq, Structural)]
pub enum NotificationError {
    /// No subscriber with the given URL is registered under the given
    /// product type.
    NotFound,
}

impl NotificationError {
    /// The text that tells a caller what went wrong.
    pub fn message(&self) -> (text: String)
        ensures
            text@ == "Subscriber not found."@,
    {
        match self {
            NotificationError::NotFound => "Subscriber not found.".to_owned(),
        }
    }
}

} // verus!
