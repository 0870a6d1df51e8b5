//! The failures that the storage core reports.

use vstd::prelude::*;

verus! {

/// Why an operation of the storage core did not go through.
#[derive(Debug, Clone, PartialEq)]
pub enum StoreError {
    /// The data root is not known: the platform could not resolve it, or it
    /// was never set.
    PathUnavailable,
    /// The data root was set before; it is set once per run.
    PathAlreadyInitialized,
    /// No session marker is there: nobody is logged in.
    NoActiveSession,
    /// A session marker is there and does not hold a session.
    CorruptSession,
    /// A search was asked for with no filter field set.
    NoFilterProvided,
    /// A search was asked for with more than one filter field set.
    AmbiguousFilter,
    /// A stored record cannot be read back.
    RecordDecodeError,
    /// A file or database operation failed; the text is the store's own.
    StorageIOError(String),
    /// No identity has this email, or the password is not the stored one.
    InvalidCredentials,
    /// The profile was asked for before onboarding wrote one.
    ProfileNotCreated,
}

/// The text that stands for a failure at the command boundary.
pub open spec fn message_text(error: StoreError) -> Seq<char> {
    match error {
        StoreError::PathUnavailable => "App data path not initialized"@,
        StoreError::PathAlreadyInitialized => "Path already initialized"@,
        StoreError::NoActiveSession => "No active session"@,
        StoreError::CorruptSession => "Invalid session JSON"@,
        StoreError::NoFilterProvided => "At least one filter must be provided"@,
        StoreError::AmbiguousFilter => "Only one filter can be provided at a time"@,
        StoreError::RecordDecodeError => "Stored record cannot be decoded"@,
        StoreError::StorageIOError(text) => text@,
        StoreError::InvalidCredentials => "Invalid email or password."@,
        StoreError::ProfileNotCreated => "Profile not yet created"@,
    }
}

impl StoreError {
    /// The human-readable text of this failure. A storage failure is passed
    /// on word for word.
    pub fn message(&self) -> (text: String)
        ensures
            text@ == message_text(*self),
    {
        match self {
            StoreError::PathUnavailable => String::from_str("App data path not initialized"),
            StoreError::PathAlreadyInitialized => String::from_str("Path already initialized"),
            StoreError::NoActiveSession => String::from_str("No active session"),
            StoreError::CorruptSession => String::from_str("Invalid session JSON"),
            StoreError::NoFilterProvided => String::from_str(
                "At least one filter must be provided",
            ),
            StoreError::AmbiguousFilter => String::from_str(
                "Only one filter can be provided at a time",
            ),
            StoreError::RecordDecodeError => String::from_str("Stored record cannot be decoded"),
            StoreError::StorageIOError(text) => text.clone(),
            StoreError::InvalidCredentials => String::from_str("Invalid email or password."),
            StoreError::ProfileNotCreated => String::from_str("Profile not yet created"),
        }
    }
}

} // verus!
