use oauth_loopback::{
    start_oauth_server, wait_for_oauth_token, FlowError, FlowOutcome, FlowState, PortScan,
    ProducerEnd, ResultQuery, WaitEvent, ERROR_PARAM, SURFACE_LABEL, TOKEN_PARAM,
    WAIT_TIMEOUT_SECS,
};
use tokio::sync::oneshot;

fn token_request(token: &str) -> ResultQuery {
    ResultQuery { error: None, id_token: Some(token.to_string()) }
}

fn error_request(reason: &str) -> ResultQuery {
    ResultQuery { error: Some(reason.to_string()), id_token: None }
}

/// A flow that was started on the first port, holding `receiver` and the
/// listener handle `handle`.
fn started(receiver: u32, handle: u32) -> FlowState<u32, u32> {
    let mut scan = PortScan::new();
    scan.record(Some(handle));
    let mut state = FlowState::new();
    start_oauth_server(&mut state, receiver, scan).unwrap();
    state
}

#[test]
fn parameter_names_match_the_landing_page_contract() {
    assert_eq!(TOKEN_PARAM, "id_token");
    assert_eq!(ERROR_PARAM, "error");
}

#[test]
fn wait_deadline_is_five_minutes() {
    assert_eq!(WAIT_TIMEOUT_SECS, 300);
}

#[test]
fn request_with_token_carries_the_token() {
    assert_eq!(token_request("abc").into_outcome(), Some(FlowOutcome::Token("abc".to_string())));
}

#[test]
fn request_with_error_carries_the_error() {
    assert_eq!(
        error_request("access_denied").into_outcome(),
        Some(FlowOutcome::Error("access_denied".to_string()))
    );
}

#[test]
fn request_with_both_carries_the_error() {
    let request =
        ResultQuery { error: Some("denied".to_string()), id_token: Some("abc".to_string()) };
    assert_eq!(request.into_outcome(), Some(FlowOutcome::Error("denied".to_string())));
}

#[test]
fn request_with_neither_carries_nothing() {
    assert_eq!(ResultQuery { error: None, id_token: None }.into_outcome(), None);
}

#[test]
fn empty_parameters_are_still_outcomes() {
    assert_eq!(token_request("").into_outcome(), Some(FlowOutcome::Token(String::new())));
    assert_eq!(error_request("").into_outcome(), Some(FlowOutcome::Error(String::new())));
}

#[test]
fn first_result_request_wins() {
    let mut producer = ProducerEnd::new(9u8);
    assert_eq!(
        producer.on_result_request(token_request("A")),
        Some((9, FlowOutcome::Token("A".to_string())))
    );
    assert_eq!(producer.on_result_request(token_request("B")), None);
    assert_eq!(producer.on_result_request(error_request("late")), None);
}

#[test]
fn request_without_outcome_leaves_the_producer_armed() {
    let mut producer = ProducerEnd::new(9u8);
    assert_eq!(producer.on_result_request(ResultQuery { error: None, id_token: None }), None);
    assert_eq!(
        producer.on_result_request(error_request("denied")),
        Some((9, FlowOutcome::Error("denied".to_string())))
    );
    assert_eq!(producer.on_result_request(token_request("A")), None);
}

#[test]
fn duplicate_delivery_reaches_the_channel_once() {
    let (tx, mut rx) = oneshot::channel::<FlowOutcome>();
    let mut producer = ProducerEnd::new(tx);
    for request in [token_request("A"), token_request("B")] {
        if let Some((sender, outcome)) = producer.on_result_request(request) {
            sender.send(outcome).unwrap();
        }
    }
    assert_eq!(rx.try_recv(), Ok(FlowOutcome::Token("A".to_string())));
    let done = wait_for_oauth_token(
        &mut FlowState::<u32, u32>::new(),
        WaitEvent::Delivered(FlowOutcome::Token("A".to_string())),
    );
    assert_eq!(done.result, Ok("A".to_string()));
}

#[test]
fn dropped_producer_abandons_the_channel() {
    let (tx, mut rx) = oneshot::channel::<FlowOutcome>();
    let mut producer = ProducerEnd::new(tx);
    assert!(producer.on_result_request(ResultQuery { error: None, id_token: None }).is_none());
    drop(producer);
    assert!(rx.try_recv().is_err());
    let done = wait_for_oauth_token(&mut FlowState::<u32, u32>::new(), WaitEvent::Abandoned);
    assert_eq!(done.result, Err(FlowError::ChannelClosed));
}

#[test]
fn wait_returns_the_delivered_token_unmodified() {
    let token = "eyJhbGciOiJSUzI1NiJ9.eyJzdWIiOiIxIn0.c2ln  +/=%20";
    let mut state = started(1, 2);
    assert_eq!(state.begin_wait(), Ok(1));
    let event = WaitEvent::Delivered(token_request(token).into_outcome().unwrap());
    let done = wait_for_oauth_token(&mut state, event);
    assert_eq!(done.result, Ok(token.to_string()));
}

#[test]
fn token_that_looks_like_an_error_is_still_a_token() {
    let mut state = started(1, 2);
    let event = WaitEvent::Delivered(FlowOutcome::Token("ERROR: not really".to_string()));
    assert_eq!(wait_for_oauth_token(&mut state, event).result, Ok("ERROR: not really".to_string()));
}

#[test]
fn wait_reports_the_provider_error() {
    let mut state = started(1, 2);
    assert_eq!(state.begin_wait(), Ok(1));
    let event = WaitEvent::Delivered(error_request("access_denied").into_outcome().unwrap());
    let done = wait_for_oauth_token(&mut state, event);
    assert_eq!(done.result, Err(FlowError::CallbackError("access_denied".to_string())));
}

#[test]
fn wait_without_start_fails() {
    let mut state: FlowState<u32, u32> = FlowState::new();
    assert_eq!(state.begin_wait(), Err(FlowError::NoActiveFlow));
}

#[test]
fn wait_times_out_and_stops_the_listener() {
    let mut state = started(1, 2);
    assert_eq!(state.begin_wait(), Ok(1));
    let done = wait_for_oauth_token(&mut state, WaitEvent::TimedOut);
    assert_eq!(done.result, Err(FlowError::FlowTimeout));
    assert_eq!(done.cancel, Some(2));
    assert_eq!(done.close_surface, SURFACE_LABEL);
    let again = wait_for_oauth_token(&mut state, WaitEvent::TimedOut);
    assert_eq!(again.cancel, None);
}

#[test]
fn wait_reports_an_abandoned_channel() {
    let mut state = started(1, 2);
    assert_eq!(state.begin_wait(), Ok(1));
    let done = wait_for_oauth_token(&mut state, WaitEvent::Abandoned);
    assert_eq!(done.result, Err(FlowError::ChannelClosed));
    assert_eq!(done.cancel, Some(2));
}

#[test]
fn every_wait_ends_with_the_same_cleanup() {
    let events = [
        WaitEvent::Delivered(FlowOutcome::Token("t".to_string())),
        WaitEvent::Delivered(FlowOutcome::Error("e".to_string())),
        WaitEvent::Abandoned,
        WaitEvent::TimedOut,
    ];
    for event in events {
        let mut state = started(1, 2);
        assert_eq!(state.begin_wait(), Ok(1));
        let done = wait_for_oauth_token(&mut state, event);
        assert_eq!(done.cancel, Some(2));
        assert_eq!(done.close_surface, "oauth-popup");
    }
}

#[test]
fn second_wait_fails_until_a_new_start() {
    let events = [
        WaitEvent::Delivered(FlowOutcome::Token("t".to_string())),
        WaitEvent::Delivered(FlowOutcome::Error("e".to_string())),
        WaitEvent::TimedOut,
    ];
    for event in events {
        let mut state = started(1, 2);
        assert_eq!(state.begin_wait(), Ok(1));
        assert_eq!(state.begin_wait(), Err(FlowError::NoActiveFlow));
        wait_for_oauth_token(&mut state, event);
        assert_eq!(state.begin_wait(), Err(FlowError::NoActiveFlow));

        let mut scan = PortScan::new();
        scan.record(Some(4));
        start_oauth_server(&mut state, 3, scan).unwrap();
        assert_eq!(state.begin_wait(), Ok(3));
        assert_eq!(state.begin_wait(), Err(FlowError::NoActiveFlow));
    }
}

#[test]
fn failed_wait_leaves_the_listener_alone() {
    let mut state = started(1, 2);
    assert_eq!(state.begin_wait(), Ok(1));
    assert_eq!(state.begin_wait(), Err(FlowError::NoActiveFlow));
    let done = wait_for_oauth_token(&mut state, WaitEvent::TimedOut);
    assert_eq!(done.cancel, Some(2));
}

#[test]
fn new_start_replaces_the_flow_in_progress() {
    let mut state = started(1, 2);
    let mut scan = PortScan::new();
    scan.record(None);
    scan.record(Some(20));
    let info = start_oauth_server(&mut state, 10, scan).unwrap();
    assert_eq!(info.port, 38715);
    assert_eq!(state.begin_wait(), Ok(10));
    let done = wait_for_oauth_token(&mut state, WaitEvent::Abandoned);
    assert_eq!(done.cancel, Some(20));
}

#[test]
fn failed_start_leaves_the_flow_in_progress() {
    let mut state = started(1, 2);
    let mut scan: PortScan<u32> = PortScan::new();
    for _ in 0..11 {
        scan.record(None);
    }
    assert_eq!(start_oauth_server(&mut state, 10, scan), Err(FlowError::NoPortAvailable));
    assert_eq!(state.begin_wait(), Ok(1));
    let done = wait_for_oauth_token(&mut state, WaitEvent::TimedOut);
    assert_eq!(done.cancel, Some(2));
}
