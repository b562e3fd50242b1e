//! The flow's state and its three operations.

use crate::error::FlowError;
use crate::outcome::{FlowOutcome, ResultQuery};
use crate::ports::{is_callback_port, OAuthServerInfo, PortScan, ScanPhase};
use crate::surface::SURFACE_LABEL;
use vstd::prelude::*;

verus! {

/// How long a wait lasts at most, in seconds, counted from the moment the
/// wait begins.
pub const WAIT_TIMEOUT_SECS: u64 = 300;

/// What a flow holds between its operations, seen as plain values.
pub struct FlowView<R, H> {
    /// The consumer end of the rendezvous, from a start until a wait
    /// claims it.
    pub pending: Option<R>,
    /// The running listener, from a start until the cleanup after a wait.
    pub listener: Option<H>,
}

impl<R, H> FlowView<R, H> {
    /// A flow that holds nothing.
    pub open spec fn idle() -> Self {
        FlowView { pending: None, listener: None }
    }

    /// The flow after a start that bound a port: it holds the new consumer
    /// end and the new listener, whatever it held before.
    pub open spec fn after_start(self, pending: R, listener: H) -> Self {
        FlowView { pending: Some(pending), listener: Some(listener) }
    }

    /// What a wait gets when it claims the consumer end: the consumer
    /// end, or `NoActiveFlow` where the flow holds none.
    pub open spec fn claimed(self) -> Result<R, FlowError> {
        match self.pending {
            Some(receiver) => Ok(receiver),
            None => Err(FlowError::NoActiveFlow),
        }
    }

    /// The flow after a wait has tried to claim the consumer end: it holds
    /// none any more, and a flow that held none is unchanged.
    pub open spec fn after_claim(self) -> Self {
        FlowView { pending: None, listener: self.listener }
    }

    /// The flow after the cleanup that ends a wait.
    pub open spec fn after_cleanup(self) -> Self {
        FlowView { pending: self.pending, listener: None }
    }
}

/// The one slot for the flow in progress: the consumer end `R` of its
/// rendezvous and the handle `H` of its running listener.
///
/// Both are owned here and each is handed out exactly once.
pub struct FlowState<R, H> {
    receiver: Option<R>,
    server_handle: Option<H>,
}

impl<R, H> View for FlowState<R, H> {
    type V = FlowView<R, H>;

    closed spec fn view(&self) -> FlowView<R, H> {
        FlowView { pending: self.receiver, listener: self.server_handle }
    }
}

/// Why a wait came to its end.
#[derive(Debug, Clone, PartialEq, Eq)]
pub enum WaitEvent {
    /// The rendezvous yielded an outcome.
    Delivered(FlowOutcome),
    /// The producer end went away without delivering.
    Abandoned,
    /// The deadline passed first.
    TimedOut,
}

/// What a wait returns for the event that ended it.
pub open spec fn wait_result(event: WaitEvent) -> Result<String, FlowError> {
    match event {
        WaitEvent::Delivered(FlowOutcome::Token(token)) => Ok(token),
        WaitEvent::Delivered(FlowOutcome::Error(reason)) => Err(FlowError::CallbackError(reason)),
        WaitEvent::Abandoned => Err(FlowError::ChannelClosed),
        WaitEvent::TimedOut => Err(FlowError::FlowTimeout),
    }
}

/// The end of a wait: what to return, and what to clean up first.
pub struct WaitCompletion<H> {
    /// The token, or why there is none.
    pub result: Result<String, FlowError>,
    /// The listener to cancel, if one was running.
    pub cancel: Option<H>,
    /// Name of the surface to close; closing is best effort.
    pub close_surface: &'static str,
}

impl<R, H> FlowState<R, H> {
    /// A flow that holds nothing.
    pub fn new() -> (state: Self)
        ensures
            state@ == FlowView::<R, H>::idle(),
    {
        FlowState { receiver: None, server_handle: None }
    }

    /// Begins a wait by claiming the consumer end.
    ///
    /// Fails with `NoActiveFlow`, and changes nothing, exactly when there
    /// is none to claim: no flow was started, or an earlier wait claimed it.
    pub fn begin_wait(&mut self) -> (claimed: Result<R, FlowError>)
        ensures
            claimed == old(self)@.claimed(),
            final(self)@ == old(self)@.after_claim(),
            claimed is Err ==> final(self)@ == old(self)@,
    {
        match self.receiver.take() {
            Some(receiver) => Ok(receiver),
            None => Err(FlowError::NoActiveFlow),
        }
    }
}

/// Completes a start once the scan of the callback range is over.
///
/// If the scan bound a port, the flow takes the consumer end and the
/// listener, replacing what it held, and the result tells where the
/// identity provider must redirect to. If it bound none, the call fails
/// with `NoPortAvailable` and the flow is left as it was.
pub fn start_oauth_server<R, H>(
    state: &mut FlowState<R, H>,
    receiver: R,
    scan: PortScan<H>,
) -> (started: Result<OAuthServerInfo, FlowError>)
    ensures
        match scan.phase() {
            ScanPhase::Bound(port) => {
                &&& is_callback_port(port)
                &&& started matches Ok(info) && info.describes(port)
                &&& scan.listener() matches Some(listener)
                &&& final(state)@ == old(state)@.after_start(receiver, scan.listener()->0)
            },
            _ => {
                &&& started == Err::<OAuthServerInfo, FlowError>(FlowError::NoPortAvailable)
                &&& final(state)@ == old(state)@
            },
        },
{
    match scan.into_bound() {
        Some((port, listener)) => {
            state.receiver = Some(receiver);
            state.server_handle = Some(listener);
            Ok(OAuthServerInfo::for_port(port))
        },
        None => Err(FlowError::NoPortAvailable),
    }
}

/// Ends a wait that `begin_wait` began, given the event that ended it.
///
/// Whatever the event, the listener leaves the flow to be cancelled and
/// the sign-in surface is to be closed. A delivered token is returned as
/// it was delivered; a delivered failure text fails with `CallbackError`,
/// an abandoned rendezvous with `ChannelClosed`, a passed deadline with
/// `FlowTimeout`.
pub fn wait_for_oauth_token<R, H>(
    state: &mut FlowState<R, H>,
    event: WaitEvent,
) -> (done: WaitCompletion<H>)
    ensures
        done.result == wait_result(event),
        done.cancel == old(state)@.listener,
        done.close_surface@ == SURFACE_LABEL@,
        final(state)@ == old(state)@.after_cleanup(),
{
    let cancel = state.server_handle.take();
    let result = match event {
        WaitEvent::Delivered(FlowOutcome::Token(token)) => Ok(token),
        WaitEvent::Delivered(FlowOutcome::Error(reason)) => Err(FlowError::CallbackError(reason)),
        WaitEvent::Abandoned => Err(FlowError::ChannelClosed),
        WaitEvent::TimedOut => Err(FlowError::FlowTimeout),
    };
    WaitCompletion { result, cancel, close_surface: SURFACE_LABEL }
}

/// A token that a request delivers comes back from the wait exactly as the
/// request carried it.
pub proof fn lemma_token_is_returned_unmodified(request: ResultQuery, token: String)
    requires
        request.error is None,
        request.id_token == Some(token),
    ensures
        request.carried() == Some(FlowOutcome::Token(token)),
        wait_result(WaitEvent::Delivered(FlowOutcome::Token(token))) == Ok::<String, FlowError>(
            token,
        ),
{
}

/// A failure text that a request delivers makes the wait fail with
/// `CallbackError` and that text, whether or not the request also carries
/// a token.
pub proof fn lemma_provider_failure_is_reported(request: ResultQuery, reason: String)
    requires
        request.error == Some(reason),
    ensures
        request.carried() == Some(FlowOutcome::Error(reason)),
        wait_result(WaitEvent::Delivered(FlowOutcome::Error(reason))) == Err::<String, FlowError>(
            FlowError::CallbackError(reason),
        ),
{
}

/// A deadline that passes makes the wait fail with `FlowTimeout`, and the
/// cleanup leaves no listener in the flow.
pub proof fn lemma_timeout_ends_the_flow<R, H>(flow: FlowView<R, H>)
    ensures
        wait_result(WaitEvent::TimedOut) == Err::<String, FlowError>(FlowError::FlowTimeout),
        flow.after_cleanup().listener is None,
{
}

/// A wait on a flow that was never started fails with `NoActiveFlow`.
pub proof fn lemma_wait_without_start_fails<R, H>()
    ensures
        FlowView::<R, H>::idle().claimed() == Err::<R, FlowError>(FlowError::NoActiveFlow),
{
}

/// Once a wait has claimed the consumer end, every further wait fails with
/// `NoActiveFlow`, before and after the cleanup, until a start that binds
/// a port arms the flow again.
pub proof fn lemma_wait_is_single_use<R, H>(flow: FlowView<R, H>, pending: R, listener: H)
    ensures
        flow.after_claim().claimed() == Err::<R, FlowError>(FlowError::NoActiveFlow),
        flow.after_claim().after_cleanup().claimed() == Err::<R, FlowError>(
            FlowError::NoActiveFlow,
        ),
        flow.after_claim().after_cleanup().after_start(pending, listener).claimed() == Ok::<
            R,
            FlowError,
        >(pending),
{
}

/// A flow that is started once and waited for once holds nothing
/// afterwards.
pub proof fn lemma_single_flow_returns_to_idle<R, H>(pending: R, listener: H)
    ensures
        FlowView::<R, H>::idle().after_start(pending, listener).after_claim().after_cleanup()
            == FlowView::<R, H>::idle(),
{
}

} // verus!
