//! Decisions of a loopback OAuth redirect-capture flow.
//!
//! A desktop application opens a short-lived HTTP listener on the loopback
//! interface, points a browser window at an identity provider, and waits for
//! the provider's redirect to hand back an identity token. This crate holds
//! every decision of that flow as verified code over plain values; binding
//! sockets, serving requests, sleeping and opening windows are left to the
//! caller, who reports each event back.
//!
//! One flow runs as follows. The caller walks a [`PortScan`] over the
//! callback range, starts a listener on the first port that binds, and
//! completes the start with [`start_oauth_server`]. Each request to the
//! result route goes through [`ProducerEnd::on_result_request`], which lets
//! only the first request that carries an outcome deliver. The waiter
//! claims the consumer end with [`FlowState::begin_wait`], waits outside
//! this crate, and ends the wait with [`wait_for_oauth_token`], which says
//! what to return and what to clean up. [`open_oauth_window`] checks the
//! sign-in address and describes the window to show it in.

pub mod channel;
pub mod decimal;
pub mod error;
pub mod flow;
pub mod outcome;
pub mod ports;
pub mod status;
pub mod surface;

pub use channel::ProducerEnd;
pub use error::FlowError;
pub use flow::{
    start_oauth_server, wait_for_oauth_token, FlowState, WaitCompletion, WaitEvent,
    WAIT_TIMEOUT_SECS,
};
pub use outcome::{FlowOutcome, ResultQuery, ERROR_PARAM, TOKEN_PARAM};
pub use ports::{
    callback_url, OAuthServerInfo, PortScan, ScanPhase, CALLBACK_SEGMENT, FIRST_PORT, LAST_PORT,
    LISTEN_HOST, RESULT_REPLY, RESULT_SEGMENT,
};
pub use status::{get_tailscale_status, run_tailscale_command, TailscaleStatus};
pub use surface::{
    open_oauth_window, surface_for, surface_opened, SignInSurface, SURFACE_HEIGHT, SURFACE_LABEL,
    SURFACE_TITLE, SURFACE_WIDTH,
};
