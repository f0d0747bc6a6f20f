use control_bus::broker::Broker;
use control_bus::endpoints::{
    poll_endpoint, result_endpoint, submit_endpoint, submit_response, ControlResponse,
    PollOutcome, ResultOutcome, SubmitOutcome, SubmitStart, CONTROL_BUS_PORT,
    EXECUTION_DEADLINE_SECS, PICKUP_DEADLINE_SECS,
};

fn token() -> String {
    "secret".to_string()
}

fn good_header() -> Option<String> {
    Some("Bearer secret".to_string())
}

fn submit_ok(b: &mut Broker<i32, i32>, command: &str, waiter: i32, notifier: i32) -> String {
    let header = good_header();
    match submit_endpoint(
        b,
        header.as_ref(),
        &token(),
        command.to_string(),
        waiter,
        notifier,
    ) {
        SubmitStart::Registered(id) => id,
        SubmitStart::Unauthorized => panic!("authorized submit was refused"),
        SubmitStart::IdCollision => panic!("fresh identifier collided"),
    }
}

#[test]
fn poll_on_empty_queue_returns_empty() {
    let mut b: Broker<i32, i32> = Broker::new();
    let header = good_header();
    match poll_endpoint(&mut b, header.as_ref(), &token()) {
        PollOutcome::Empty => {}
        _ => panic!("expected an empty poll"),
    }
}

#[test]
fn submit_then_poll_hands_out_the_command() {
    let mut b: Broker<i32, i32> = Broker::new();
    let id = submit_ok(&mut b, "click#id", 7, 1);
    assert_eq!(id.len(), 36);
    assert_eq!(b.pending_count(), 1);
    assert_eq!(b.queued_count(), 1);
    let header = good_header();
    match poll_endpoint(&mut b, header.as_ref(), &token()) {
        PollOutcome::Picked(cmd, notifier) => {
            assert_eq!(cmd.request_id, id);
            assert_eq!(cmd.command, "click#id");
            assert_eq!(notifier, 1);
        }
        _ => panic!("expected the queued command"),
    }
    assert_eq!(b.queued_count(), 0);
    assert_eq!(b.pending_count(), 1);
}

#[test]
fn full_round_trip_resolves_with_the_delivered_value() {
    let mut b: Broker<i32, i32> = Broker::new();
    let header = good_header();
    match poll_endpoint(&mut b, header.as_ref(), &token()) {
        PollOutcome::Empty => {}
        _ => panic!("expected an empty poll"),
    }
    let id = submit_ok(&mut b, "click#id", 7, 1);
    match poll_endpoint(&mut b, header.as_ref(), &token()) {
        PollOutcome::Picked(cmd, _) => {
            assert_eq!(cmd.request_id, id);
            assert_eq!(cmd.command, "click#id");
        }
        _ => panic!("expected the queued command"),
    }
    match result_endpoint(&mut b, header.as_ref(), &token(), Some(&id)) {
        ResultOutcome::Deliver(waiter) => assert_eq!(waiter, 7),
        _ => panic!("expected the registered waiter"),
    }
    let mut body = serde_json::Map::new();
    body.insert("ok".to_string(), serde_json::Value::Bool(true));
    let value = serde_json::Value::Object(body);
    let reply: ControlResponse<serde_json::Value> =
        submit_response(SubmitOutcome::Resolved(value.clone()));
    assert!(reply.success);
    assert_eq!(reply.result, Some(value));
    assert_eq!(reply.error, None);
}

#[test]
fn a_polled_identifier_is_never_handed_out_again() {
    let mut b: Broker<i32, i32> = Broker::new();
    let id_a = submit_ok(&mut b, "first", 1, 10);
    let id_b = submit_ok(&mut b, "second", 2, 20);
    assert_ne!(id_a, id_b);
    let header = good_header();
    match poll_endpoint(&mut b, header.as_ref(), &token()) {
        PollOutcome::Picked(cmd, _) => assert_eq!(cmd.request_id, id_a),
        _ => panic!("expected the oldest command first"),
    }
    match poll_endpoint(&mut b, header.as_ref(), &token()) {
        PollOutcome::Picked(cmd, _) => assert_eq!(cmd.request_id, id_b),
        _ => panic!("expected the second command"),
    }
    match poll_endpoint(&mut b, header.as_ref(), &token()) {
        PollOutcome::Empty => {}
        _ => panic!("every command was already claimed"),
    }
}

#[test]
fn a_result_is_accepted_at_most_once() {
    let mut b: Broker<i32, i32> = Broker::new();
    let id = submit_ok(&mut b, "once", 5, 1);
    let header = good_header();
    match result_endpoint(&mut b, header.as_ref(), &token(), Some(&id)) {
        ResultOutcome::Deliver(waiter) => assert_eq!(waiter, 5),
        _ => panic!("first delivery must succeed"),
    }
    match result_endpoint(&mut b, header.as_ref(), &token(), Some(&id)) {
        ResultOutcome::UnknownId => {}
        _ => panic!("second delivery must find nothing"),
    }
}

#[test]
fn reverse_order_results_reach_their_own_submissions() {
    let mut b: Broker<i32, i32> = Broker::new();
    let id_a = submit_ok(&mut b, "first", 111, 1);
    let id_b = submit_ok(&mut b, "second", 222, 2);
    let header = good_header();
    match result_endpoint(&mut b, header.as_ref(), &token(), Some(&id_b)) {
        ResultOutcome::Deliver(waiter) => assert_eq!(waiter, 222),
        _ => panic!("expected the waiter registered under the second identifier"),
    }
    match result_endpoint(&mut b, header.as_ref(), &token(), Some(&id_a)) {
        ResultOutcome::Deliver(waiter) => assert_eq!(waiter, 111),
        _ => panic!("expected the waiter registered under the first identifier"),
    }
}

#[test]
fn pickup_timeout_leaves_no_trace_in_either_table() {
    let mut b: Broker<i32, i32> = Broker::new();
    let id = submit_ok(&mut b, "click#id", 9, 1);
    b.cancel_submission(&id);
    assert_eq!(b.pending_count(), 0);
    assert_eq!(b.queued_count(), 0);
    let header = good_header();
    match poll_endpoint(&mut b, header.as_ref(), &token()) {
        PollOutcome::Empty => {}
        _ => panic!("a cancelled command must not be claimable"),
    }
    match result_endpoint(&mut b, header.as_ref(), &token(), Some(&id)) {
        ResultOutcome::UnknownId => {}
        _ => panic!("a cancelled identifier must be unknown"),
    }
    let reply: ControlResponse<i32> = submit_response(SubmitOutcome::PickupTimeout);
    assert!(!reply.success);
    assert_eq!(reply.result, None);
    assert_eq!(reply.error.as_deref(), Some("pickup timeout"));
}

#[test]
fn execution_timeout_leaves_no_correlation_and_late_results_are_unknown() {
    let mut b: Broker<i32, i32> = Broker::new();
    let id = submit_ok(&mut b, "slow", 4, 1);
    let header = good_header();
    match poll_endpoint(&mut b, header.as_ref(), &token()) {
        PollOutcome::Picked(_, _) => {}
        _ => panic!("expected the queued command"),
    }
    let waiter = b.take_waiter(&id);
    assert_eq!(waiter, Some(4));
    assert_eq!(b.pending_count(), 0);
    match result_endpoint(&mut b, header.as_ref(), &token(), Some(&id)) {
        ResultOutcome::UnknownId => {}
        _ => panic!("a timed-out identifier must be unknown"),
    }
    let reply: ControlResponse<i32> = submit_response(SubmitOutcome::ExecutionTimeout);
    assert!(!reply.success);
    assert_eq!(reply.error.as_deref(), Some("execution timeout"));
}

#[test]
fn disconnect_reply_carries_its_own_error_text() {
    let reply: ControlResponse<i32> = submit_response(SubmitOutcome::Disconnected);
    assert!(!reply.success);
    assert_eq!(reply.result, None);
    assert_eq!(reply.error.as_deref(), Some("disconnected before responding"));
}

#[test]
fn every_endpoint_rejects_a_missing_or_wrong_token_without_touching_state() {
    let mut b: Broker<i32, i32> = Broker::new();
    let id = submit_ok(&mut b, "guarded", 3, 1);
    let before_pending = b.pending_count();
    let before_queued = b.queued_count();
    let bad_headers: Vec<Option<String>> = vec![
        None,
        Some("Bearer wrong".to_string()),
        Some("secret".to_string()),
        Some("bearer secret".to_string()),
        Some("Token secret".to_string()),
    ];
    for header in &bad_headers {
        match submit_endpoint(
            &mut b,
            header.as_ref(),
            &token(),
            "intruder".to_string(),
            99,
            99,
        ) {
            SubmitStart::Unauthorized => {}
            _ => panic!("submit must refuse a bad credential"),
        }
        match poll_endpoint(&mut b, header.as_ref(), &token()) {
            PollOutcome::Unauthorized => {}
            _ => panic!("poll must refuse a bad credential"),
        }
        match result_endpoint(&mut b, header.as_ref(), &token(), Some(&id)) {
            ResultOutcome::Unauthorized => {}
            _ => panic!("result must refuse a bad credential"),
        }
        assert_eq!(b.pending_count(), before_pending);
        assert_eq!(b.queued_count(), before_queued);
    }
}

#[test]
fn a_result_without_an_identifier_is_a_malformed_request() {
    let mut b: Broker<i32, i32> = Broker::new();
    let header = good_header();
    match result_endpoint(&mut b, header.as_ref(), &token(), None) {
        ResultOutcome::MissingId => {}
        _ => panic!("a missing identifier must be reported as malformed"),
    }
}

#[test]
fn a_duplicate_identifier_is_refused_without_change() {
    let mut b: Broker<i32, i32> = Broker::new();
    let fresh = b.register("fixed-id".to_string(), "one".to_string(), 1, 1);
    assert!(fresh);
    let again = b.register("fixed-id".to_string(), "two".to_string(), 2, 2);
    assert!(!again);
    assert_eq!(b.pending_count(), 1);
    assert_eq!(b.queued_count(), 1);
}

#[test]
fn minted_identifiers_are_distinct_uuid_strings() {
    let mut b: Broker<i32, i32> = Broker::new();
    let id_a = submit_ok(&mut b, "a", 1, 1);
    let id_b = submit_ok(&mut b, "b", 2, 2);
    assert_eq!(id_a.len(), 36);
    assert_eq!(id_b.len(), 36);
    assert_ne!(id_a, id_b);
}

#[test]
fn the_two_deadlines_and_the_port_match_the_protocol() {
    assert_eq!(PICKUP_DEADLINE_SECS, 5);
    assert_eq!(EXECUTION_DEADLINE_SECS, 10);
    assert_eq!(CONTROL_BUS_PORT, 8083);
}
