use std::time::Duration;

use shared_restapi::{
    Client, MockBehavior, MockBehaviorPlan, MockResponse, MockRestAdapter, RestError,
    RestErrorKind, RestRequest, RestResponse,
};
use sonic_rs::{JsonContainerTrait, JsonValueTrait};

fn adapter_with_behavior(behavior: MockBehavior) -> Client<MockRestAdapter> {
    let mut behavior_plan = MockBehaviorPlan::default();
    behavior_plan.push(behavior);

    Client::with_transport(MockRestAdapter::with_behavior_plan(behavior_plan))
}

fn assert_error_kind(err: RestError, expected: RestErrorKind, expected_retryable: bool) {
    assert_eq!(err.kind(), expected);
    assert_eq!(err.is_retryable(), expected_retryable);
}

#[test]
fn request_timeout_defaults_to_two_seconds_and_is_overridable() {
    let default_request = RestRequest::get("https://api.example.com/default-timeout");
    assert_eq!(default_request.timeout, Some(Duration::from_secs(2)));

    let overridden = default_request.with_timeout(Duration::from_millis(250));
    assert_eq!(overridden.timeout, Some(Duration::from_millis(250)));
}

#[test]
fn request_can_set_timeout_and_retry_policy_together() {
    let request = RestRequest::get("https://api.example.com/timeout-retry")
        .with_timeout(Duration::from_millis(1500))
        .with_retry_on_status(503, 2);

    assert_eq!(request.timeout, Some(Duration::from_millis(1500)));
    let policy = request
        .retry_policy
        .expect("retry policy should be configured");
    assert_eq!(policy.max_retries, 2);
    assert_eq!(policy.statuses, vec![503]);
}

#[test]
fn timeout_error_is_not_retried_even_when_status_retry_policy_is_set() {
    let mut behavior_plan = MockBehaviorPlan::default();
    behavior_plan.push(MockBehavior::timeout_error("timed out", Some(504), true));
    behavior_plan.push(MockBehavior::Pass);
    let adapter = MockRestAdapter::with_behavior_plan(behavior_plan);
    let mut transport = Client::with_transport(adapter);

    let err = transport
        .execute_json_checked(
            RestRequest::get("https://api.example.com/timeout-retry")
                .with_timeout(Duration::from_millis(50))
                .with_retry_on_status(504, 2),
        )
        .expect_err("transport timeout should fail immediately");
    assert_error_kind(err, RestErrorKind::Timeout, true);

    let snapshot = transport.transport().snapshot();
    assert_eq!(snapshot.request_count, 1);
}

#[test]
fn execute_json_checked_retries_configured_status_then_succeeds() {
    let url = "https://api.example.com/retry-503-then-ok";
    let mut adapter = MockRestAdapter::new();
    adapter.queue_get_response(url, MockResponse::text(503, "temporarily unavailable"));
    adapter.queue_get_response(url, MockResponse::text(503, "temporarily unavailable"));
    adapter.queue_get_response(url, MockResponse::text(200, r#"{"ok":true}"#));

    let mut transport = Client::with_transport(adapter);
    let response = transport
        .execute_json_checked(RestRequest::get(url).with_retry_on_status(503, 2))
        .expect("request should succeed after retries on configured status");
    assert_eq!(response.get("ok").and_then(|v| v.as_bool()), Some(true));

    let snapshot = transport.transport().snapshot();
    assert_eq!(snapshot.request_count, 3);
}

#[test]
fn execute_json_checked_does_not_retry_without_policy() {
    let url = "https://api.example.com/no-retry-default";
    let mut adapter = MockRestAdapter::new();
    adapter.queue_get_response(url, MockResponse::text(503, "temporarily unavailable"));
    adapter.queue_get_response(url, MockResponse::text(200, r#"{"ok":true}"#));

    let mut transport = Client::with_transport(adapter);
    let err = transport
        .execute_json_checked(RestRequest::get(url))
        .expect_err("request should fail immediately without retry policy");
    assert_error_kind(err, RestErrorKind::Rejected, true);

    let snapshot = transport.transport().snapshot();
    assert_eq!(snapshot.request_count, 1);
}

#[test]
fn execute_json_checked_retries_only_on_configured_statuses() {
    let url = "https://api.example.com/retry-only-specific-status";
    let mut adapter = MockRestAdapter::new();
    adapter.queue_get_response(url, MockResponse::text(500, "internal"));
    adapter.queue_get_response(url, MockResponse::text(200, r#"{"ok":true}"#));

    let mut transport = Client::with_transport(adapter);
    let err = transport
        .execute_json_checked(RestRequest::get(url).with_retry_on_status(503, 2))
        .expect_err("status not in retry set should fail without retrying");
    assert_error_kind(err, RestErrorKind::Rejected, true);

    let snapshot = transport.transport().snapshot();
    assert_eq!(snapshot.request_count, 1);
}

#[test]
fn execute_json_checked_stops_after_max_retries() {
    let url = "https://api.example.com/retry-exhausted";
    let mut adapter = MockRestAdapter::new();
    adapter.queue_get_response(url, MockResponse::text(503, "temporarily unavailable"));
    adapter.queue_get_response(url, MockResponse::text(503, "temporarily unavailable"));
    adapter.queue_get_response(url, MockResponse::text(503, "temporarily unavailable"));

    let mut transport = Client::with_transport(adapter);
    let err = transport
        .execute_json_checked(RestRequest::get(url).with_retry_on_status(503, 2))
        .expect_err("request should fail after max retries are exhausted");
    assert_error_kind(err, RestErrorKind::Rejected, true);

    let snapshot = transport.transport().snapshot();
    assert_eq!(snapshot.request_count, 3);
}

#[test]
fn execute_json_checked_with_empty_retry_statuses_does_not_retry() {
    let url = "https://api.example.com/retry-empty-statuses";
    let mut adapter = MockRestAdapter::new();
    adapter.queue_get_response(url, MockResponse::text(503, "temporarily unavailable"));
    adapter.queue_get_response(url, MockResponse::text(200, r#"{"ok":true}"#));

    let mut transport = Client::with_transport(adapter);
    let err = transport
        .execute_json_checked(RestRequest::get(url).with_retry_on_statuses(vec![], 2))
        .expect_err("empty retry status list should behave as no retries");
    assert_error_kind(err, RestErrorKind::Rejected, true);

    let snapshot = transport.transport().snapshot();
    assert_eq!(snapshot.request_count, 1);
}

#[test]
fn mock_transport_connect_error_bubbles_with_connect_kind() {
    let mut transport = adapter_with_behavior(MockBehavior::connect_error("dns failed", None, true));
    let result = transport.execute_json_checked(RestRequest::get("https://api.example.com/panic"));

    let err = result.expect_err("connect mock should fail");
    assert_error_kind(err, RestErrorKind::Connect, true);
}

#[test]
fn mock_transport_send_error_bubbles_with_send_kind() {
    let mut transport = adapter_with_behavior(MockBehavior::send_error("send failed", Some(0), false));
    let result = transport.execute_json_checked(RestRequest::get("https://api.example.com/panic"));

    let err = result.expect_err("send mock should fail");
    assert_error_kind(err, RestErrorKind::Send, false);
}

#[test]
fn mock_transport_receive_error_bubbles_with_receive_kind() {
    let mut transport = adapter_with_behavior(MockBehavior::receive_error(
        "connection reset",
        Some(0),
        false,
    ));
    let result = transport.execute_json_checked(RestRequest::post("https://api.example.com/panic"));

    let err = result.expect_err("receive mock should fail");
    assert_error_kind(err, RestErrorKind::Receive, false);
}

#[test]
fn mock_transport_timeout_and_internal_errors_are_typed() {
    let mut behavior_plan = MockBehaviorPlan::default();
    behavior_plan.push(MockBehavior::timeout_error("timed out", Some(408), true));
    behavior_plan.push(MockBehavior::internal_error("state corrupted"));

    let mut transport = Client::with_transport(MockRestAdapter::with_behavior_plan(behavior_plan));

    let timeout_err = transport
        .execute_json_checked(RestRequest::get("https://api.example.com/panic"))
        .expect_err("timeout mock should fail");
    assert_error_kind(timeout_err, RestErrorKind::Timeout, true);

    let internal_err = transport
        .execute_json_checked(RestRequest::get("https://api.example.com/panic"))
        .expect_err("internal mock should fail");
    assert_error_kind(internal_err, RestErrorKind::Internal, false);
}

#[test]
fn mock_transport_reject_error_maps_to_rejected_kind_and_checked_retries() {
    let mut behavior_plan = MockBehaviorPlan::default();
    behavior_plan
        .push(MockBehavior::reject(503, "rate limited"))
        .push(MockBehavior::reject(503, "rate limited"));
    let mut transport = Client::with_transport(MockRestAdapter::with_behavior_plan(behavior_plan));

    let request = RestRequest::get("https://api.example.com/panic");
    let execute_err = transport
        .execute_json_checked(request.clone())
        .expect_err("reject behavior should be surfaced");
    assert_error_kind(execute_err, RestErrorKind::Rejected, true);

    let checked_err = transport
        .execute_json_checked(request)
        .expect_err("checked execution should fail on rejected responses");
    assert_error_kind(checked_err, RestErrorKind::Rejected, true);
}

#[test]
fn mock_transport_fallback_response_is_successful_when_queue_is_empty() {
    let mut transport = Client::with_transport(MockRestAdapter::new());
    let parse_error = transport
        .execute_json(RestRequest::get("https://api.example.com/panic"))
        .expect_err("empty fallback body should fail typed json parse");
    assert_error_kind(parse_error, RestErrorKind::Parse, false);

    let response = transport
        .get_url_response("https://api.example.com/panic")
        .expect("mock with empty queue should return fallback response");
    assert!(response.body().is_empty());
}

#[test]
fn queue_error_payload_helpers_are_supported() {
    let mut adapter = MockRestAdapter::new();
    adapter.queue_error_response_for(
        "GET",
        "https://api.example.com/errors",
        429,
        b"rate limit hit".to_vec(),
    );
    adapter.queue_error_text("https://api.example.com/text-error", 400, "invalid body");
    let payload = sonic_rs::to_vec(&std::collections::BTreeMap::from([("error", "limit")]))
        .expect("json fixture should serialize for mock error response");
    adapter.queue_error_response("https://api.example.com/json-error", 418, payload);

    let mut transport = Client::with_transport(adapter);

    let errors = [
        ("https://api.example.com/errors", 429),
        ("https://api.example.com/text-error", 400),
        ("https://api.example.com/json-error", 418),
    ];

    for (url, expected_status) in errors {
        let response = transport
            .get_url_response(url)
            .expect("mock queue should return configured error response");
        assert_eq!(response.status(), expected_status);
        assert!(!response.body().is_empty());
    }
}

#[test]
fn parse_error_is_exposed_as_parse_error_kind() {
    let mut adapter = MockRestAdapter::new();
    adapter.queue_get_response(
        "https://api.example.com/bad",
        MockResponse::text(200, "not-json"),
    );
    let mut transport = Client::with_transport(adapter);

    let parse_error = transport
        .execute_json(RestRequest::get("https://api.example.com/bad"))
        .expect_err("parse should fail for non-json body");

    assert_error_kind(parse_error, RestErrorKind::Parse, false);
}

#[test]
fn post_response_with_bytes_returns_mock_response() {
    let mut adapter = MockRestAdapter::new();
    adapter.queue_post_response(
        "https://api.example.com/echo",
        MockResponse::new(201, b"created".to_vec()),
    );
    let mut transport = Client::with_transport(adapter);

    let response = transport
        .post_response("https://api.example.com/echo", br#"{"value":"ok"}"#.to_vec())
        .expect("mock response should be returned");

    assert_eq!(response.status(), 201);
}

#[test]
fn mocked_response_body_is_zero_copy() {
    let original = b"{\"ok\":true}".to_vec();
    let original_ptr = original.as_ptr();

    let mut adapter = MockRestAdapter::new();
    adapter.queue_get_response(
        "https://api.example.com/zero-copy",
        MockResponse::new(200, original),
    );
    let mut transport = Client::with_transport(adapter);

    let response = transport
        .get_url_response("https://api.example.com/zero-copy")
        .expect("mock response should be returned");

    assert_eq!(response.body().as_ptr(), original_ptr);
}

#[test]
fn response_json_decodes_the_body_it_was_built_with() {
    let payload = b"[1,2,3,4,5,6,7,8,9,10]";
    let response = RestResponse {
        status: 200,
        headers: Vec::new(),
        body: payload.to_vec(),
        elapsed: Duration::from_millis(0),
    };
    let parsed = response.json().expect("json parse should succeed");
    let items: Vec<u64> = parsed
        .as_array()
        .expect("an array")
        .iter()
        .map(|v| v.as_u64().expect("a number"))
        .collect();
    assert_eq!(items, vec![1, 2, 3, 4, 5, 6, 7, 8, 9, 10]);
}
