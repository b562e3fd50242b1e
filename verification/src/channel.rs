//! The producer end of the rendezvous between listener and waiter.

use crate::outcome::{first_outcome, FlowOutcome, ResultQuery};
use vstd::prelude::*;

verus! {

/// The producer end of a single-use handoff: it holds the sender `S` until
/// the first request that carries an outcome, and nothing afterwards.
///
/// The result route may be hit any number of times; only the first hit that
/// carries an outcome gets the sender, so at most one value is ever sent.
pub struct ProducerEnd<S> {
    sender: Option<S>,
}

impl<S> View for ProducerEnd<S> {
    type V = Option<S>;

    /// The sender, as long as nothing has been delivered.
    closed spec fn view(&self) -> Option<S> {
        self.sender
    }
}

/// What one request does to the producer end: the sender that is left, and
/// the delivery to make, if any. Only a request that carries an outcome
/// and finds the sender still there delivers.
pub open spec fn deliver_step<S>(
    sender: Option<S>,
    request: ResultQuery,
) -> (Option<S>, Option<(S, FlowOutcome)>) {
    match (sender, request.carried()) {
        (Some(s), Some(outcome)) => (None, Some((s, outcome))),
        _ => (sender, None),
    }
}

/// Every delivery that a run of requests makes, in order.
pub open spec fn deliveries<S>(
    sender: Option<S>,
    requests: Seq<ResultQuery>,
) -> Seq<(S, FlowOutcome)>
    decreases requests.len(),
{
    if requests.len() == 0 {
        Seq::empty()
    } else {
        let (left, delivery) = deliver_step(sender, requests[0]);
        let rest = deliveries(left, requests.skip(1));
        match delivery {
            Some(d) => seq![d] + rest,
            None => rest,
        }
    }
}

impl<S> ProducerEnd<S> {
    /// A producer end that still holds `sender`.
    pub fn new(sender: S) -> (producer: Self)
        ensures
            producer@ == Some(sender),
    {
        ProducerEnd { sender: Some(sender) }
    }

    /// Handles one request to the result route.
    ///
    /// Returns the sender together with the outcome to send on it if this
    /// is the first request that carries an outcome; otherwise returns
    /// `None` and leaves the producer end as it was. The route answers the
    /// request in the same way either way.
    pub fn on_result_request(
        &mut self,
        request: ResultQuery,
    ) -> (delivery: Option<(S, FlowOutcome)>)
        ensures
            (final(self)@, delivery) == deliver_step(old(self)@, request),
    {
        match request.into_outcome() {
            Some(outcome) => match self.sender.take() {
                Some(sender) => Some((sender, outcome)),
                None => None,
            },
            None => None,
        }
    }
}

/// Once something was delivered, nothing is delivered again, whatever is
/// requested.
pub proof fn lemma_spent_producer_stays_silent<S>(requests: Seq<ResultQuery>)
    ensures
        deliveries(None::<S>, requests) == Seq::<(S, FlowOutcome)>::empty(),
    decreases requests.len(),
{
    if requests.len() > 0 {
        lemma_spent_producer_stays_silent::<S>(requests.skip(1));
    }
}

/// Of any run of requests, the first that carries an outcome is delivered,
/// and it alone: later requests change nothing.
pub proof fn lemma_first_delivery_wins<S>(sender: S, requests: Seq<ResultQuery>)
    ensures
        deliveries(Some(sender), requests) == (match first_outcome(requests) {
            Some(outcome) => seq![(sender, outcome)],
            None => Seq::empty(),
        }),
    decreases requests.len(),
{
    if requests.len() > 0 {
        match requests[0].carried() {
            Some(outcome) => {
                lemma_spent_producer_stays_silent::<S>(requests.skip(1));
                assert(seq![(sender, outcome)] + Seq::<(S, FlowOutcome)>::empty() =~= seq![
                    (sender, outcome),
                ]);
            },
            None => {
                lemma_first_delivery_wins(sender, requests.skip(1));
            },
        }
    }
}

/// Two requests in a row on a fresh producer end, the first of which
/// carries an outcome: the first is delivered and the second is not.
pub proof fn lemma_second_request_has_no_effect<S>(
    sender: S,
    first: ResultQuery,
    second: ResultQuery,
)
    requires
        first.carried() is Some,
    ensures
        deliver_step(Some(sender), first) == (None::<S>, Some((sender, first.carried()->0))),
        deliver_step(deliver_step(Some(sender), first).0, second) == (
            None::<S>,
            None::<(S, FlowOutcome)>,
        ),
{
}

} // verus!
