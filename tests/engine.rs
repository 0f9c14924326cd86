use std::time::Duration;

use shared_restapi::{
    checked_step, CheckedStep, Client, MockBehavior, MockBehaviorPlan, MockOperation,
    MockResponse, MockRestAdapter, MockScenario, MockScenarioStepKind, RestError, RestErrorKind,
    RestRequest, RestResponse, RestTransportState,
};
use sonic_rs::JsonValueTrait;

#[test]
fn scenario_retry_on_route_then_decode() {
    let mut adapter = MockRestAdapter::new();
    adapter.queue_get_response("/r", MockResponse::text(503, "unavailable"));
    adapter.queue_get_response("/r", MockResponse::text(503, "unavailable"));
    adapter.queue_get_response("/r", MockResponse::text(200, r#"{"ok":true}"#));
    let mut client = Client::with_transport(adapter);

    let value = client
        .execute_json_checked(RestRequest::get("/r").with_retry_on_statuses(vec![503], 2))
        .expect("third answer decodes");
    assert_eq!(value.get("ok").and_then(|v| v.as_bool()), Some(true));
    assert_eq!(client.transport().snapshot().request_count, 3);
}

#[test]
fn scenario_reject_twice_execute_then_checked() {
    let mut plan = MockBehaviorPlan::default();
    plan.push(MockBehavior::reject(503, "rate limited"))
        .push(MockBehavior::reject(503, "rate limited"));
    let mut client = Client::with_transport(MockRestAdapter::with_behavior_plan(plan));
    let request = RestRequest::get("https://api.example.com/limited");

    let first = client.execute(request.clone()).expect_err("rejected");
    assert_eq!(first.kind(), RestErrorKind::Rejected);
    assert_eq!(first.status(), Some(503));
    assert!(first.is_retryable());

    let second = client.execute_checked(request).expect_err("rejected again");
    assert_eq!(second.kind(), RestErrorKind::Rejected);
    assert_eq!(second.status(), Some(503));
    assert!(second.is_retryable());
    assert_eq!(client.transport().snapshot().request_count, 2);
}

#[test]
fn no_policy_means_one_call_whatever_the_status() {
    let mut adapter = MockRestAdapter::new();
    adapter.queue_response(MockResponse::text(503, "busy"));
    adapter.queue_response(MockResponse::text(200, "fine"));
    let mut client = Client::with_transport(adapter);
    let err = client
        .execute_checked(RestRequest::get("https://api.example.com/a"))
        .expect_err("503 is rejected");
    assert_eq!(err.status(), Some(503));
    assert_eq!(client.transport().snapshot().request_count, 1);
}

#[test]
fn checked_retry_then_success_counts_calls() {
    let mut adapter = MockRestAdapter::new();
    adapter.queue_response(MockResponse::text(502, "bad gateway"));
    adapter.queue_response(MockResponse::text(200, "done"));
    let mut client = Client::with_transport(adapter);
    let response = client
        .execute_checked(RestRequest::get("https://api.example.com/a").with_retry_on_status(502, 1))
        .expect("second answer is 2xx");
    assert_eq!(response.status(), 200);
    assert_eq!(response.body(), b"done");
    assert_eq!(client.transport().snapshot().request_count, 2);
}

#[test]
fn rejection_reason_names_status_and_body() {
    let response = RestResponse {
        status: 404,
        headers: Vec::new(),
        body: b"missing".to_vec(),
        elapsed: Duration::from_millis(0),
    };
    match response.ensure_success() {
        Err(RestError::Rejected { status, reason, retryable }) => {
            assert_eq!(status, 404);
            assert_eq!(reason, "request rejected: status=404 body=missing");
            assert!(!retryable);
        }
        other => panic!("expected a rejection, got {:?}", other),
    }
}

#[test]
fn rejection_reason_replaces_invalid_utf8() {
    let response = RestResponse {
        status: 500,
        headers: Vec::new(),
        body: vec![0x66, 0xff, 0x6f],
        elapsed: Duration::from_millis(0),
    };
    match response.ensure_success() {
        Err(RestError::Rejected { reason, retryable, .. }) => {
            assert_eq!(reason, "request rejected: status=500 body=f\u{fffd}o");
            assert!(retryable);
        }
        other => panic!("expected a rejection, got {:?}", other),
    }
}

#[test]
fn success_range_is_two_hundreds() {
    for (status, ok) in [(199u16, false), (200, true), (299, true), (300, false)] {
        let response = RestResponse {
            status,
            headers: Vec::new(),
            body: Vec::new(),
            elapsed: Duration::from_millis(0),
        };
        assert_eq!(response.is_success(), ok);
        assert_eq!(response.ensure_success().is_ok(), ok);
    }
}

#[test]
fn checked_step_decisions() {
    let request = RestRequest::get("https://api.example.com/a").with_retry_on_status(503, 2);
    assert_eq!(checked_step(&request, 0, 200), CheckedStep::Accept);
    assert_eq!(checked_step(&request, 0, 503), CheckedStep::Retry);
    assert_eq!(checked_step(&request, 1, 503), CheckedStep::Retry);
    assert_eq!(checked_step(&request, 2, 503), CheckedStep::Reject);
    assert_eq!(checked_step(&request, 0, 500), CheckedStep::Reject);
    let bare = RestRequest::get("https://api.example.com/a");
    assert_eq!(checked_step(&bare, 0, 503), CheckedStep::Reject);
}

#[test]
fn route_queue_before_default_then_fallback() {
    let mut adapter = MockRestAdapter::new();
    adapter.queue_response(MockResponse::text(201, "default"));
    adapter.queue_get_response("/x", MockResponse::text(202, "routed"));
    let mut client = Client::with_transport(adapter);

    let first = client.get_url_response("/x").expect("routed");
    assert_eq!(first.status(), 202);
    assert_eq!(first.body(), b"routed");
    let second = client.get_url_response("/x").expect("default");
    assert_eq!(second.status(), 201);
    let third = client.get_url_response("/x").expect("fallback");
    assert_eq!(third.status(), 200);
    assert!(third.body().is_empty());
}

#[test]
fn route_key_is_method_and_exact_url() {
    let mut adapter = MockRestAdapter::new();
    adapter.queue_post_response("/x", MockResponse::text(201, "post"));
    adapter.queue_get_response("/x?a=1", MockResponse::text(202, "query"));
    let mut client = Client::with_transport(adapter);

    let get = client.get_url_response("/x").expect("fallback for GET /x");
    assert_eq!(get.status(), 200);
    let post = client.post_response("/x", b"payload".to_vec()).expect("routed POST");
    assert_eq!(post.status(), 201);
    let query = client.get_url_response("/x?a=1").expect("routed GET with query");
    assert_eq!(query.status(), 202);
}

#[test]
fn drop_behavior_is_a_timeout_that_is_not_retryable() {
    let mut plan = MockBehaviorPlan::new();
    plan.push(MockBehavior::drop_response());
    let mut client = Client::with_transport(MockRestAdapter::with_behavior_plan(plan));
    let err = client
        .execute_checked(RestRequest::get("/d").with_retry_on_status(504, 3))
        .expect_err("dropped");
    assert_eq!(err.kind(), RestErrorKind::Timeout);
    assert!(!err.is_retryable());
    assert_eq!(err.status(), None);
    let snapshot = client.transport().snapshot();
    assert_eq!(snapshot.state, RestTransportState::Error);
    assert_eq!(snapshot.last_error.as_deref(), Some("transport dropped response"));
    assert_eq!(snapshot.request_count, 1);
}

#[test]
fn failing_behaviors_keep_their_fields() {
    let cases = [
        (MockBehavior::connect_error("c", Some(1), true), RestErrorKind::Connect, Some(1), true),
        (MockBehavior::send_error("s", None, false), RestErrorKind::Send, None, false),
        (MockBehavior::receive_error("r", Some(2), true), RestErrorKind::Receive, Some(2), true),
        (MockBehavior::timeout_error("t", Some(3), false), RestErrorKind::Timeout, Some(3), false),
        (MockBehavior::internal_error("i"), RestErrorKind::Internal, None, false),
        (MockBehavior::reject(429, "slow"), RestErrorKind::Rejected, Some(429), true),
    ];
    for (behavior, kind, status, retryable) in cases {
        let mut plan = MockBehaviorPlan::new();
        plan.push(behavior);
        let mut adapter = MockRestAdapter::with_behavior_plan(plan);
        adapter.queue_response(MockResponse::text(200, "unused"));
        let mut client = Client::with_transport(adapter);
        let err = client.execute(RestRequest::get("/f")).expect_err("scripted failure");
        assert_eq!(err.kind(), kind);
        assert_eq!(err.status(), status);
        assert_eq!(err.is_retryable(), retryable);
        let snapshot = client.transport().snapshot();
        assert_eq!(snapshot.response_queue_len, 1);
        assert_eq!(snapshot.inbound_count, 0);
        assert_eq!(snapshot.outbound_count, 1);
        assert_eq!(snapshot.last_status, status);
    }
}

#[test]
fn error_constructors_report_kind_status_and_retryability() {
    assert_eq!(RestError::timeout("t", Some(408), true).kind(), RestErrorKind::Timeout);
    assert_eq!(RestError::rejected(503, "r", true).status(), Some(503));
    assert!(!RestError::internal("i").is_retryable());
    assert_eq!(RestError::internal("i").status(), None);
    assert_eq!(RestError::mock_response("m", None, false).kind(), RestErrorKind::MockTransport);
    assert_eq!(RestError::connect("c", Some(7), true).kind(), RestErrorKind::Connect);
    assert_eq!(RestError::send("s", None, false).kind(), RestErrorKind::Send);
    assert_eq!(RestError::receive("r", None, true).kind(), RestErrorKind::Receive);
    assert!(RestError::receive("r", None, true).is_retryable());
    let mock = RestError::mock(RestErrorKind::Parse, "p", Some(9), true);
    assert_eq!(mock.kind(), RestErrorKind::Parse);
    assert_eq!(mock.status(), Some(9));
}

#[test]
fn parse_errors_are_never_retryable() {
    let err = sonic_rs::from_str::<sonic_rs::Value>("{").expect_err("truncated");
    let parse = RestError::parse(err);
    assert_eq!(parse.kind(), RestErrorKind::Parse);
    assert!(!parse.is_retryable());
    assert_eq!(parse.status(), None);
}

#[test]
fn reqwest_builder_failure_maps_to_send() {
    let err = reqwest::blocking::Client::new()
        .get("not a url")
        .send()
        .expect_err("an invalid url cannot be sent");
    let mapped = RestError::from_reqwest(RestErrorKind::Send, err);
    assert_eq!(mapped.kind(), RestErrorKind::Send);
    assert!(!mapped.is_retryable());
}

#[test]
fn scenario_steps_override_queued_behaviors() {
    let scenario = MockScenario::new()
        .reject(429, "slow down")
        .drop_response()
        .delay(Duration::from_millis(1))
        .pass();
    let mut client = Client::with_transport(MockRestAdapter::from_scenario(scenario));

    let rejected = client.execute(RestRequest::get("/s")).expect_err("reject step");
    assert_eq!(rejected.kind(), RestErrorKind::Rejected);
    assert_eq!(rejected.status(), Some(429));
    let dropped = client.execute(RestRequest::get("/s")).expect_err("drop step");
    assert_eq!(dropped.kind(), RestErrorKind::Timeout);
    let delayed = client.execute(RestRequest::get("/s")).expect("delay still serves");
    assert_eq!(delayed.status(), 200);
    let passed = client.execute(RestRequest::get("/s")).expect("pass serves");
    assert_eq!(passed.status(), 200);
    assert_eq!(client.transport().snapshot().behavior_remaining, 0);
}

#[test]
fn plan_pop_defaults_to_pass() {
    let mut plan = MockBehaviorPlan::new();
    plan.push_request(MockBehavior::delay(5));
    assert!(matches!(plan.pop(MockOperation::Request), MockBehavior::Delay(_)));
    assert!(matches!(plan.pop(MockOperation::Request), MockBehavior::Pass));
}

#[test]
fn scenario_plan_maps_each_step() {
    let plan = MockBehaviorPlan::scenario(MockScenario::new().pass().reject(503, "x").drop_response());
    let mut adapter = MockRestAdapter::with_behavior_plan(plan);
    let snapshot = adapter.snapshot();
    assert_eq!(snapshot.behavior_remaining, 3);
    assert!(matches!(adapter.pop_behavior(MockOperation::Request), MockBehavior::Pass));
    match adapter.pop_behavior(MockOperation::Request) {
        MockBehavior::Reject { status, reason } => {
            assert_eq!(status, 503);
            assert_eq!(reason, "x");
        }
        other => panic!("expected reject, got {:?}", other),
    }
    assert!(matches!(adapter.pop_behavior(MockOperation::Request), MockBehavior::Drop));
    assert_eq!(MockScenarioStepKind::Replay, MockScenarioStepKind::Replay);
}

#[test]
fn replay_appends_frames_to_the_default_queue() {
    let mut plan = MockBehaviorPlan::new();
    plan.push(MockBehavior::replay(vec![
        MockResponse::text(207, "one"),
        MockResponse::text(208, "two"),
    ]));
    let mut client = Client::with_transport(MockRestAdapter::with_behavior_plan(plan));
    let first = client.get_url_response("/p").expect("first frame");
    assert_eq!(first.status(), 207);
    let second = client.get_url_response("/p").expect("second frame");
    assert_eq!(second.status(), 208);
    assert_eq!(client.transport().snapshot().response_queue_len, 0);
}

#[test]
fn snapshot_counts_and_clear_logs() {
    let mut adapter = MockRestAdapter::default();
    adapter.queue_get_response("/a", MockResponse::text(200, "a"));
    adapter.queue_get_response("/a", MockResponse::text(200, "b"));
    adapter.queue_post_response("/b", MockResponse::text(201, "c"));
    adapter.queue_response(MockResponse::text(202, "d"));
    let snapshot = adapter.snapshot();
    assert_eq!(snapshot.route_queue_len, 3);
    assert_eq!(snapshot.response_queue_len, 1);
    assert_eq!(snapshot.state, RestTransportState::Idle);
    assert_eq!(snapshot.last_url, None);

    let mut client = Client::with_transport(adapter);
    client.get_url_response("/a").expect("routed");
    let snapshot = client.transport().snapshot();
    assert_eq!(snapshot.route_queue_len, 2);
    assert_eq!(snapshot.last_url.as_deref(), Some("/a"));
    assert_eq!(snapshot.last_status, Some(200));
    assert_eq!(snapshot.last_error, None);
    assert_eq!(client.transport().outbound_count(), 1);
    assert_eq!(client.transport().inbound_count(), 1);

    let mut adapter = client.into_transport();
    adapter.clear_logs();
    assert_eq!(adapter.outbound_count(), 0);
    assert_eq!(adapter.inbound_count(), 0);
    assert_eq!(adapter.snapshot().request_count, 1);
}

#[test]
fn headers_and_body_pass_through() {
    let mut adapter = MockRestAdapter::new();
    adapter.queue_response(
        MockResponse::bytes(200, b"{}".to_vec())
            .with_header("x-a", b"1".to_vec())
            .with_header("x-a", b"2".to_vec()),
    );
    let mut client = Client::with_transport(adapter);
    let response = client.get_url_response("/h").expect("served");
    assert_eq!(
        response.headers,
        vec![("x-a".to_string(), b"1".to_vec()), ("x-a".to_string(), b"2".to_vec())]
    );
    assert_eq!(response.body(), b"{}");
}

#[test]
fn request_builders_keep_fields() {
    let request = RestRequest::new("PUT", "/r")
        .with_header("k", b"v".to_vec())
        .with_body(b"body".to_vec());
    assert_eq!(request.method, "PUT");
    assert_eq!(request.url, "/r");
    assert_eq!(request.headers, vec![("k".to_string(), b"v".to_vec())]);
    assert_eq!(request.body.as_deref(), Some(&b"body"[..]));
    assert!(request.retry_policy.is_none());
    let post = RestRequest::post("/p");
    assert_eq!(post.method, "POST");
    let copy = request.duplicate();
    assert_eq!(copy.headers, request.headers);
    assert_eq!(copy.body, request.body);
    assert!(request.should_retry_status(503, 0) == false);
}

#[test]
fn retry_policy_counts_attempts() {
    let request = RestRequest::get("/r").with_retry_on_statuses(vec![500, 503], 2);
    let policy = request.retry_policy.clone().expect("policy");
    assert!(policy.should_retry(500, 0));
    assert!(policy.should_retry(503, 1));
    assert!(!policy.should_retry(503, 2));
    assert!(!policy.should_retry(404, 0));
    assert!(request.should_retry_status(500, 1));
}

#[test]
fn json_entry_points_decode_bodies() {
    let mut adapter = MockRestAdapter::new();
    adapter.queue_response(MockResponse::text(404, r#"{"missing":true}"#));
    adapter.queue_response(MockResponse::text(404, r#"{"missing":true}"#));
    adapter.queue_response(MockResponse::text(200, r#"{"n":3}"#));
    let mut client = Client::with_transport(adapter);

    let direct = client
        .execute_json_direct(RestRequest::get("/j"))
        .expect("decoded whatever the status");
    assert_eq!(direct.get("missing").and_then(|v| v.as_bool()), Some(true));
    let gated = client
        .execute_json_checked_direct(RestRequest::get("/j"))
        .expect_err("404 is rejected");
    assert_eq!(gated.status(), Some(404));
    assert!(!gated.is_retryable());
    let ok = client.execute_json_checked(RestRequest::get("/j")).expect("2xx decodes");
    assert_eq!(ok.get("n").and_then(|v| v.as_u64()), Some(3));
}

#[test]
fn posted_json_payload_reaches_the_route() {
    let payload = sonic_rs::to_vec(&std::collections::BTreeMap::from([("a", 1)])).expect("payload");
    let mut adapter = MockRestAdapter::new();
    adapter.queue_post_response("/j", MockResponse::text(201, r#"{"id":1}"#));
    let mut client = Client::with_transport(adapter);

    let response = client.post_response("/j", payload).expect("posted");
    assert_eq!(response.status(), 201);
    let adapter = client.into_transport();
    assert_eq!(adapter.outbound_count(), 1);
}

#[test]
fn deeply_nested_json_is_a_parse_error() {
    let mut deep = vec![b'['; 33];
    deep.extend(vec![b']'; 33]);
    let response = RestResponse {
        status: 200,
        headers: Vec::new(),
        body: deep,
        elapsed: Duration::from_millis(0),
    };
    let err = response.json().expect_err("too deep");
    assert_eq!(err.kind(), RestErrorKind::Parse);
    assert!(!err.is_retryable());

    let mut huge = vec![b'['; 200_000];
    huge.extend(vec![b']'; 200_000]);
    let mut adapter = MockRestAdapter::new();
    adapter.queue_response(MockResponse::bytes(200, huge));
    let mut client = Client::with_transport(adapter);
    let err = client
        .execute_json_checked(RestRequest::get("/deep"))
        .expect_err("refused, not decoded");
    assert_eq!(err.kind(), RestErrorKind::Parse);
}

#[test]
fn nesting_up_to_the_bound_decodes_and_strings_do_not_count() {
    let mut ok = vec![b'['; 32];
    ok.extend(vec![b']'; 32]);
    let response = RestResponse {
        status: 200,
        headers: Vec::new(),
        body: ok,
        elapsed: Duration::from_millis(0),
    };
    assert!(response.json().is_ok());

    let mut text = b"[\"".to_vec();
    text.extend(vec![b'['; 300]);
    text.extend(b"\\\"\"]".to_vec());
    let response = RestResponse {
        status: 200,
        headers: Vec::new(),
        body: text,
        elapsed: Duration::from_millis(0),
    };
    assert!(response.json().is_ok());
}

#[test]
fn local_kinds_are_never_retryable() {
    assert!(!RestError::mock(RestErrorKind::Internal, "i", None, true).is_retryable());
    assert!(!RestError::mock(RestErrorKind::Parse, "p", None, true).is_retryable());
    assert!(RestError::mock(RestErrorKind::Timeout, "t", None, true).is_retryable());
}
