//! What a flow delivers, and how a delivery is read from a request.

use vstd::prelude::*;

verus! {

/// Name of the query parameter that carries the identity token.
pub const TOKEN_PARAM: &'static str = "id_token";

/// Name of the query parameter that carries the provider's failure text.
pub const ERROR_PARAM: &'static str = "error";

/// The one value a flow hands from the listener to the waiter.
#[derive(Debug, Clone, PartialEq, Eq)]
pub enum FlowOutcome {
    /// The identity token, as the provider sent it.
    Token(String),
    /// The provider's failure text.
    Error(String),
}

/// The two parameters that the result route reads from a request, each
/// present or not.
#[derive(Debug, Clone, PartialEq, Eq)]
pub struct ResultQuery {
    /// Value of the `error` parameter.
    pub error: Option<String>,
    /// Value of the `id_token` parameter.
    pub id_token: Option<String>,
}

impl ResultQuery {
    /// The outcome that the request carries: a failure text wins over a
    /// token, and a request with neither carries nothing.
    pub open spec fn carried(self) -> Option<FlowOutcome> {
        match self.error {
            Some(reason) => Some(FlowOutcome::Error(reason)),
            None => match self.id_token {
                Some(token) => Some(FlowOutcome::Token(token)),
                None => None,
            },
        }
    }

    /// Reads the outcome out of the request.
    pub fn into_outcome(self) -> (outcome: Option<FlowOutcome>)
        ensures
            outcome == self.carried(),
    {
        match self.error {
            Some(reason) => Some(FlowOutcome::Error(reason)),
            None => match self.id_token {
                Some(token) => Some(FlowOutcome::Token(token)),
                None => None,
            },
        }
    }
}

/// The outcome carried by the first request that carries one, if any does.
pub open spec fn first_outcome(requests: Seq<ResultQuery>) -> Option<FlowOutcome>
    decreases requests.len(),
{
    if requests.len() == 0 {
        None
    } else {
        match requests[0].carried() {
            Some(outcome) => Some(outcome),
            None => first_outcome(requests.skip(1)),
        }
    }
}

} // verus!
