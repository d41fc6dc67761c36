//! The ways in which the relay can fail, and how each is put into words.

use vstd::prelude::*;
use vstd::string::StringExecFns;

verus! {

/// Why an operation of the relay failed.
#[derive(Debug, PartialEq, Eq)]
pub enum RelayError {
    /// The chat gateway has not finished its handshake.
    NotReady,
    /// The platform refused to create the thread; holds the platform's words.
    ThreadCreationFailed(String),
    /// The platform refused the message; holds the platform's words.
    SendFailed(String),
    /// The wait for a reply was released without a matching message.
    NoReplyObserved,
    /// Logging is switched on but no channel was named for it.
    LoggingMisconfigured,
}

/// A `RelayError` with its texts as sequences of characters.
pub enum Failure {
    NotReady,
    ThreadCreationFailed(Seq<char>),
    SendFailed(Seq<char>),
    NoReplyObserved,
    LoggingMisconfigured,
}

impl View for RelayError {
    type V = Failure;

    open spec fn view(&self) -> Failure {
        match self {
            RelayError::NotReady => Failure::NotReady,
            RelayError::ThreadCreationFailed(cause) => Failure::ThreadCreationFailed(cause@),
            RelayError::SendFailed(cause) => Failure::SendFailed(cause@),
            RelayError::NoReplyObserved => Failure::NoReplyObserved,
            RelayError::LoggingMisconfigured => Failure::LoggingMisconfigured,
        }
    }
}

impl Clone for RelayError {
    fn clone(&self) -> (copy: Self)
        ensures
            copy@ == self@,
    {
        match self {
            RelayError::NotReady => RelayError::NotReady,
            RelayError::ThreadCreationFailed(cause) => RelayError::ThreadCreationFailed(
                cause.clone(),
            ),
            RelayError::SendFailed(cause) => RelayError::SendFailed(cause.clone()),
            RelayError::NoReplyObserved => RelayError::NoReplyObserved,
            RelayError::LoggingMisconfigured => RelayError::LoggingMisconfigured,
        }
    }
}

/// The sentence shown to the agent for a failure. A failure of the platform
/// is shown in the platform's own words.
pub open spec fn description(failure: Failure) -> Seq<char> {
    match failure {
        Failure::NotReady => "The connection with Discord is not ready"@,
        Failure::ThreadCreationFailed(cause) => cause,
        Failure::SendFailed(cause) => cause,
        Failure::NoReplyObserved => "Failed to await message from the human in Discord"@,
        Failure::LoggingMisconfigured => "Log channel ID not configured"@,
    }
}

impl RelayError {
    /// The sentence shown to the agent for this failure.
    pub fn describe(&self) -> (text: String)
        ensures
            text@ == description(self@),
    {
        match self {
            RelayError::NotReady => String::from_str("The connection with Discord is not ready"),
            RelayError::ThreadCreationFailed(cause) => cause.clone(),
            RelayError::SendFailed(cause) => cause.clone(),
            RelayError::NoReplyObserved => String::from_str(
                "Failed to await message from the human in Discord",
            ),
            RelayError::LoggingMisconfigured => String::from_str("Log channel ID not configured"),
        }
    }
}

} // verus!
