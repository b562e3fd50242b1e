//! The ways a sign-in flow can fail.

use vstd::prelude::*;
use vstd::string::StringExecFns;

verus! {

/// A failure reported to the caller of one of the flow's operations.
///
/// No failure is retried inside the flow; the caller starts over.
#[derive(Debug, Clone, PartialEq, Eq)]
pub enum FlowError {
    /// Every port of the callback range refused to bind.
    NoPortAvailable,
    /// No flow is waiting for a result: none was started, or its result was
    /// already claimed.
    NoActiveFlow,
    /// The identity provider reported a failure; the text is the provider's.
    CallbackError(String),
    /// The listener went away without delivering anything.
    ChannelClosed,
    /// Nothing was delivered before the deadline.
    FlowTimeout,
    /// The sign-in address is not an absolute URL; the text is the parser's
    /// reason.
    InvalidURL(String),
    /// The windowing layer refused to create the sign-in surface; the text is
    /// its reason.
    SurfaceCreationFailed(String),
}

impl FlowError {
    /// The text shown to the user for this failure.
    pub open spec fn message_text(self) -> Seq<char> {
        match self {
            FlowError::NoPortAvailable => "Failed to bind to any port in range 38714-38724"@,
            FlowError::NoActiveFlow => "No OAuth server running"@,
            FlowError::CallbackError(reason) => "ERROR: "@ + reason@,
            FlowError::ChannelClosed => "Callback channel closed unexpectedly"@,
            FlowError::FlowTimeout => "OAuth timeout - user took too long to authenticate"@,
            FlowError::InvalidURL(reason) => "Invalid URL: "@ + reason@,
            FlowError::SurfaceCreationFailed(reason) => reason@,
        }
    }

    /// Renders the failure as the text shown to the user.
    pub fn message(&self) -> (text: String)
        ensures
            text@ == self.message_text(),
    {
        match self {
            FlowError::NoPortAvailable => String::from_str(
                "Failed to bind to any port in range 38714-38724",
            ),
            FlowError::NoActiveFlow => String::from_str("No OAuth server running"),
            FlowError::CallbackError(reason) => String::from_str("ERROR: ").concat(
                reason.as_str(),
            ),
            FlowError::ChannelClosed => String::from_str("Callback channel closed unexpectedly"),
            FlowError::FlowTimeout => String::from_str(
                "OAuth timeout - user took too long to authenticate",
            ),
            FlowError::InvalidURL(reason) => String::from_str("Invalid URL: ").concat(
                reason.as_str(),
            ),
            FlowError::SurfaceCreationFailed(reason) => reason.clone(),
        }
    }
}

} // verus!
