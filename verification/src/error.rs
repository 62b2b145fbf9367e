//! The failures a registry call can end in, and how each one reads.

use vstd::prelude::*;
use vstd::string::*;

verus! {

/// Why a registry operation did not succeed.
#[derive(Debug, Clone, PartialEq, Eq)]
pub enum RegistryError {
    /// No entry was ever registered under this actor name.
    NotFound(String),
    /// The actor is registered, but its manager stopped sending heartbeats.
    Offline(String),
    /// The registry refused to register the actor.
    RegistrationFailed { actor_name: String, reason: String },
    /// The registry could not be reached, or its reply could not be read.
    ConnectionError(String),
    /// No reply arrived in time.
    Timeout(String),
}

/// The model of a [`RegistryError`]: the same variants over character sequences.
pub enum ErrorView {
    NotFound(Seq<char>),
    Offline(Seq<char>),
    RegistrationFailed { actor_name: Seq<char>, reason: Seq<char> },
    ConnectionError(Seq<char>),
    Timeout(Seq<char>),
}

impl View for RegistryError {
    type V = ErrorView;

    open spec fn view(&self) -> ErrorView {
        match self {
            RegistryError::NotFound(name) => ErrorView::NotFound(name@),
            RegistryError::Offline(name) => ErrorView::Offline(name@),
            RegistryError::RegistrationFailed { actor_name, reason } => ErrorView::RegistrationFailed {
                actor_name: actor_name@,
                reason: reason@,
            },
            RegistryError::ConnectionError(detail) => ErrorView::ConnectionError(detail@),
            RegistryError::Timeout(detail) => ErrorView::Timeout(detail@),
        }
    }
}

impl ErrorView {
    /// The sentence an error is reported with.
    pub open spec fn text(self) -> Seq<char> {
        match self {
            ErrorView::NotFound(name) => "Actor not found: "@ + name,
            ErrorView::Offline(name) => "Actor offline: "@ + name,
            ErrorView::RegistrationFailed { actor_name, reason } => "Registration failed for '"@
                + actor_name + "': "@ + reason,
            ErrorView::ConnectionError(detail) => "Registry connection error: "@ + detail,
            ErrorView::Timeout(detail) => "Registry timeout: "@ + detail,
        }
    }
}

impl RegistryError {
    /// Renders the error as one line of text.
    pub fn to_string(&self) -> (text: String)
        ensures
            text@ == self@.text(),
    {
        match self {
            RegistryError::NotFound(name) => String::from_str("Actor not found: ").concat(
                name.as_str(),
            ),
            RegistryError::Offline(name) => String::from_str("Actor offline: ").concat(
                name.as_str(),
            ),
            RegistryError::RegistrationFailed { actor_name, reason } => {
                let mut text = String::from_str("Registration failed for '");
                text.append(actor_name.as_str());
                text.append("': ");
                text.append(reason.as_str());
                text
            },
            RegistryError::ConnectionError(detail) => String::from_str(
                "Registry connection error: ",
            ).concat(detail.as_str()),
            RegistryError::Timeout(detail) => String::from_str("Registry timeout: ").concat(
                detail.as_str(),
            ),
        }
    }
}

} // verus!
