use vstd::prelude::*;

use crate::codec::{decode_json, rejection_reason};
use crate::error::{RestError, RestResult};
use crate::model::{RestRawResponse, RestRequest, RestResponse, RestRetryPolicy};

verus! {

/// What one transport call came back with, as far as the retry decision reads it.
pub enum Attempt {
    Failed(RestError),
    Answered { status: u16, body: Seq<u8> },
}

pub open spec fn attempt_of(r: RestResult<RestResponse>) -> Attempt {
    match r {
        Ok(resp) => Attempt::Answered { status: resp.status, body: resp.body@ },
        Err(e) => Attempt::Failed(e),
    }
}

/// The outcomes of a sequence of answers.
pub open spec fn attempts(results: Seq<RestResult<RestResponse>>) -> Seq<Attempt> {
    results.map_values(|x: RestResult<RestResponse>| attempt_of(x))
}

/// The raw form of a full answer: status, body and elapsed time.
pub open spec fn raw_of(full: RestResult<RestResponse>) -> RestResult<RestRawResponse> {
    match full {
        Ok(resp) => Ok((resp.status, resp.body, resp.elapsed)),
        Err(e) => Err(e),
    }
}

/// Whether the checked loop calls the transport again after outcome `a` of attempt number `i`:
/// only on a non-2xx answer whose status the policy retries at that count.
pub open spec fn continues(policy: Option<RestRetryPolicy>, a: Attempt, i: int) -> bool {
    match a {
        Attempt::Answered { status, .. } => !crate::model::is_success_status(status)
            && crate::model::retries_on(policy, status, i),
        Attempt::Failed(_) => false,
    }
}

/// `run` is one complete run of the checked loop: every outcome but the last asks for
/// another attempt, and the last does not.
pub open spec fn is_checked_run(policy: Option<RestRetryPolicy>, run: Seq<Attempt>) -> bool {
    &&& run.len() >= 1
    &&& forall|i: int| 0 <= i < run.len() - 1 ==> continues(policy, #[trigger] run[i], i)
    &&& !continues(policy, run.last(), run.len() - 1)
}

/// What checked execution returns when its run ends in answer `last`: a failure unchanged,
/// a 2xx response unchanged, anything else as a rejection.
pub open spec fn checked_result(last: RestResult<RestResponse>, r: RestResult<RestResponse>) -> bool {
    match last {
        Err(e) => r == Err::<RestResponse, RestError>(e),
        Ok(resp) => if crate::model::is_success_status(resp.status) {
            r == Ok::<RestResponse, RestError>(resp)
        } else {
            &&& r is Err
            &&& crate::model::rejection_of(resp.status, resp.body@, r->Err_0)
        },
    }
}

/// What the JSON entry points return on outcome `last`, when a non-2xx answer is
/// decoded (`gated == false`) or rejected (`gated == true`).
pub open spec fn json_result(last: Attempt, gated: bool, r: RestResult<sonic_rs::Value>) -> bool {
    match last {
        Attempt::Failed(e) => r == Err::<sonic_rs::Value, RestError>(e),
        Attempt::Answered { status, body } => if !gated || crate::model::is_success_status(
            status,
        ) {
            &&& r.is_ok() == crate::codec::json_decodes(body)
            &&& r is Err ==> r->Err_0 is Parse
        } else {
            &&& r is Err
            &&& crate::model::rejection_of(status, body, r->Err_0)
        },
    }
}

/// The retry count that a request's policy allows.
pub open spec fn retry_bound(policy: Option<RestRetryPolicy>) -> int {
    match policy {
        Some(p) => p.max_retries as int,
        None => 0,
    }
}

/// The capability to send a request and receive a response.
pub trait RestTransport: Sized {
    /// What one call that sends `request` and answers `r` does to the transport.
    spec fn step(before: Self, after: Self, request: RestRequest, r: RestResult<RestResponse>) -> bool;

    /// Sends one request and returns the full response, or the failure.
    fn execute(&mut self, request: &RestRequest) -> (r: RestResult<RestResponse>)
        ensures
            Self::step(*old(self), *final(self), *request, r),
    ;

    /// Sends one request and returns status, body and elapsed time only.
    fn execute_raw(&mut self, request: &RestRequest) -> (r: RestResult<RestRawResponse>)
        ensures
            exists|full: RestResult<RestResponse>|
                Self::step(*old(self), *final(self), *request, full) && r == raw_of(full),
    {
        let result = self.execute(request);
        let ghost full = result;
        let r = match result {
            Ok(resp) => Ok((resp.status, resp.body, resp.elapsed)),
            Err(e) => Err(e),
        };
        assert(r == raw_of(full));
        r
    }
}

/// `states` walks a transport through one call per answer in `results`, each sending `request`.
pub open spec fn walks<T: RestTransport>(
    states: Seq<T>,
    results: Seq<RestResult<RestResponse>>,
    request: RestRequest,
) -> bool {
    &&& states.len() == results.len() + 1
    &&& forall|i: int|
        0 <= i < results.len() ==> #[trigger] T::step(states[i], states[i + 1], request, results[i])
}

/// Checked execution of `request` took the transport from `before` to `after` through the
/// answers `results`, and returned `r`.
pub open spec fn checked_by<T: RestTransport>(
    states: Seq<T>,
    results: Seq<RestResult<RestResponse>>,
    before: T,
    after: T,
    request: RestRequest,
    r: RestResult<RestResponse>,
) -> bool {
    &&& walks(states, results, request)
    &&& states[0] == before
    &&& states.last() == after
    &&& is_checked_run(request.retry_policy, attempts(results))
    &&& checked_result(results.last(), r)
}

/// The JSON form of checked execution (`gated`) or of one decoding call (not `gated`).
pub open spec fn json_by<T: RestTransport>(
    states: Seq<T>,
    results: Seq<RestResult<RestResponse>>,
    before: T,
    after: T,
    request: RestRequest,
    gated: bool,
    r: RestResult<sonic_rs::Value>,
) -> bool {
    &&& walks(states, results, request)
    &&& states[0] == before
    &&& states.last() == after
    &&& if gated {
        is_checked_run(request.retry_policy, attempts(results))
    } else {
        results.len() == 1
    }
    &&& json_result(attempt_of(results.last()), gated, r)
}

/// A request as the URL helpers build it: no headers, the default timeout, no policy.
pub open spec fn plain_request(
    request: RestRequest,
    method: Seq<char>,
    url: Seq<char>,
    body: Option<Seq<u8>>,
) -> bool {
    &&& request.method@ == method
    &&& request.url@ == url
    &&& request.headers@.len() == 0
    &&& match request.body {
        Some(b) => body == Some(b@),
        None => body is None,
    }
    &&& request.timeout == Some(crate::model::seconds_duration(
        crate::model::DEFAULT_REQUEST_TIMEOUT_SECS,
    ))
    &&& request.retry_policy is None
}

/// What checked execution does with an answer.
#[derive(Clone, Copy, Debug, PartialEq, Eq, Structural)]
pub enum CheckedStep {
    /// A 2xx answer: return it.
    Accept,
    /// A status the policy retries at this count: call the transport again.
    Retry,
    /// Any other answer: report it as a rejection.
    Reject,
}

/// Decides what checked execution does with an answer of `status` to attempt number
/// `attempt` (counting retries from zero).
pub fn checked_step(request: &RestRequest, attempt: usize, status: u16) -> (r: CheckedStep)
    ensures
        r == CheckedStep::Accept <==> crate::model::is_success_status(status),
        r == CheckedStep::Retry <==> continues(
            request.retry_policy,
            Attempt::Answered { status, body: Seq::empty() },
            attempt as int,
        ),
        r == CheckedStep::Reject <==> !crate::model::is_success_status(status)
            && !crate::model::retries_on(request.retry_policy, status, attempt as int),
{
    if 200 <= status && status < 300 {
        CheckedStep::Accept
    } else if request.should_retry_status(status, attempt) {
        CheckedStep::Retry
    } else {
        CheckedStep::Reject
    }
}

/// Orchestrates calls over a transport, applying each request's retry policy.
pub struct Client<T> {
    transport: T,
}

impl<T: RestTransport> Client<T> {
    pub closed spec fn transport_spec(&self) -> T {
        self.transport
    }

    pub fn with_transport(transport: T) -> (r: Client<T>)
        ensures
            r.transport_spec() == transport,
    {
        Client { transport }
    }

    /// The transport the client sends through.
    pub fn transport(&self) -> (r: &T)
        ensures
            *r == self.transport_spec(),
    {
        &self.transport
    }

    /// Gives the transport back.
    pub fn into_transport(self) -> (r: T)
        ensures
            r == self.transport_spec(),
    {
        self.transport
    }

    /// One attempt, with no retry: the transport's answer unchanged.
    pub fn execute(&mut self, request: RestRequest) -> (r: RestResult<RestResponse>)
        ensures
            T::step(old(self).transport_spec(), final(self).transport_spec(), request, r),
    {
        self.transport.execute(&request)
    }

    /// Calls the transport with `request` until a failure, a 2xx answer, or an answer the
    /// policy does not retry; a failure is returned unchanged and never retried, a 2xx
    /// response is returned unchanged, a non-2xx answer that ends the run becomes a rejection.
    pub fn execute_checked(&mut self, request: RestRequest) -> (r: RestResult<RestResponse>)
        ensures
            exists|states: Seq<T>, results: Seq<RestResult<RestResponse>>|
                checked_by(
                    states,
                    results,
                    old(self).transport_spec(),
                    final(self).transport_spec(),
                    request,
                    r,
                ) && results.len() <= retry_bound(request.retry_policy) + 1,
    {
        let ghost policy = request.retry_policy;
        let ghost mut states: Seq<T> = seq![self.transport];
        let ghost mut results: Seq<RestResult<RestResponse>> = Seq::empty();
        let mut attempt: usize = 0;
        loop
            invariant
                policy == request.retry_policy,
                walks(states, results, request),
                states[0] == old(self).transport,
                states.last() == self.transport,
                results.len() == attempt,
                attempt <= retry_bound(policy),
                forall|i: int|
                    0 <= i < attempt ==> continues(policy, #[trigger] attempts(results)[i], i),
            decreases retry_bound(policy) - attempt,
        {
            let response = self.transport.execute(&request);
            proof {
                let prev = states;
                let prev_results = results;
                states = states.push(self.transport);
                results = results.push(response);
                assert forall|i: int| 0 <= i < results.len() implies #[trigger] T::step(
                    states[i],
                    states[i + 1],
                    request,
                    results[i],
                ) by {
                    if i < prev_results.len() {
                        assert(states[i] == prev[i]);
                        assert(states[i + 1] == prev[i + 1]);
                        assert(results[i] == prev_results[i]);
                    }
                }
                assert forall|i: int| 0 <= i < attempt implies continues(
                    policy,
                    #[trigger] attempts(results)[i],
                    i,
                ) by {
                    assert(attempts(results)[i] == attempts(prev_results)[i]);
                }
                assert(attempts(results).last() == attempt_of(response));
            }
            match response {
                Err(e) => {
                    let out: RestResult<RestResponse> = Err(e);
                    assert(checked_by(states, results, old(self).transport_spec(), self.transport_spec(), request, out) && results.len() <= retry_bound(request.retry_policy) + 1);
                    return out;
                },
                Ok(resp) => match checked_step(&request, attempt, resp.status) {
                    CheckedStep::Accept => {
                        let out: RestResult<RestResponse> = Ok(resp);
                        assert(checked_by(states, results, old(self).transport_spec(), self.transport_spec(), request, out) && results.len() <= retry_bound(request.retry_policy) + 1);
                        return out;
                    },
                    CheckedStep::Retry => {
                        attempt = attempt + 1;
                    },
                    CheckedStep::Reject => {
                        let out: RestResult<RestResponse> = match resp.ensure_success() {
                            Err(e) => Err(e),
                            Ok(()) => Ok(resp),
                        };
                        assert(checked_by(states, results, old(self).transport_spec(), self.transport_spec(), request, out) && results.len() <= retry_bound(request.retry_policy) + 1);
                        return out;
                    },
                },
            }
        }
    }

    /// One attempt through the raw path, decoding the body as JSON whatever the status.
    pub fn execute_json_direct(&mut self, request: RestRequest) -> (r: RestResult<sonic_rs::Value>)
        ensures
            exists|states: Seq<T>, results: Seq<RestResult<RestResponse>>|
                json_by(
                    states,
                    results,
                    old(self).transport_spec(),
                    final(self).transport_spec(),
                    request,
                    false,
                    r,
                ),
    {
        let ghost before = self.transport;
        let raw = self.transport.execute_raw(&request);
        let ghost full = choose|full: RestResult<RestResponse>|
            T::step(before, self.transport, request, full) && raw == raw_of(full);
        let ghost states = seq![before, self.transport];
        let ghost results = seq![full];
        let out = match raw {
            Err(e) => Err(e),
            Ok(raw) => match decode_json(raw.1.as_slice()) {
                Ok(v) => Ok(v),
                Err(e) => Err(RestError::Parse(e)),
            },
        };
        assert(T::step(states[0], states[1], request, results[0]));
        assert(json_by(states, results, old(self).transport_spec(), self.transport_spec(), request, false, out));
        out
    }

    /// One attempt, decoding whatever body comes back as JSON.
    pub fn execute_json(&mut self, request: RestRequest) -> (r: RestResult<sonic_rs::Value>)
        ensures
            exists|states: Seq<T>, results: Seq<RestResult<RestResponse>>|
                json_by(
                    states,
                    results,
                    old(self).transport_spec(),
                    final(self).transport_spec(),
                    request,
                    false,
                    r,
                ),
    {
        self.execute_json_direct(request)
    }

    /// The checked loop over the raw path: failures are returned unchanged, a 2xx
    /// body is decoded (a decoding failure is never retried), other answers are
    /// retried while the policy allows and rejected after.
    pub fn execute_json_checked_direct(&mut self, request: RestRequest) -> (r: RestResult<
        sonic_rs::Value,
    >)
        ensures
            exists|states: Seq<T>, results: Seq<RestResult<RestResponse>>|
                json_by(
                    states,
                    results,
                    old(self).transport_spec(),
                    final(self).transport_spec(),
                    request,
                    true,
                    r,
                ) && results.len() <= retry_bound(request.retry_policy) + 1,
    {
        let ghost policy = request.retry_policy;
        let ghost mut states: Seq<T> = seq![self.transport];
        let ghost mut results: Seq<RestResult<RestResponse>> = Seq::empty();
        let mut attempt: usize = 0;
        loop
            invariant
                policy == request.retry_policy,
                walks(states, results, request),
                states[0] == old(self).transport,
                states.last() == self.transport,
                results.len() == attempt,
                attempt <= retry_bound(policy),
                forall|i: int|
                    0 <= i < attempt ==> continues(policy, #[trigger] attempts(results)[i], i),
            decreases retry_bound(policy) - attempt,
        {
            let ghost before = self.transport;
            let raw = self.transport.execute_raw(&request);
            proof {
                let full = choose|full: RestResult<RestResponse>|
                    T::step(before, self.transport, request, full) && raw == raw_of(full);
                let prev = states;
                let prev_results = results;
                states = states.push(self.transport);
                results = results.push(full);
                assert forall|i: int| 0 <= i < results.len() implies #[trigger] T::step(
                    states[i],
                    states[i + 1],
                    request,
                    results[i],
                ) by {
                    if i < prev_results.len() {
                        assert(states[i] == prev[i]);
                        assert(states[i + 1] == prev[i + 1]);
                        assert(results[i] == prev_results[i]);
                    }
                }
                assert forall|i: int| 0 <= i < attempt implies continues(
                    policy,
                    #[trigger] attempts(results)[i],
                    i,
                ) by {
                    assert(attempts(results)[i] == attempts(prev_results)[i]);
                }
                assert(attempts(results).last() == attempt_of(full));
                assert(raw == raw_of(results.last()));
            }
            match raw {
                Err(e) => {
                    let out: RestResult<sonic_rs::Value> = Err(e);
                    assert(json_by(states, results, old(self).transport_spec(), self.transport_spec(), request, true, out) && results.len() <= retry_bound(request.retry_policy) + 1);
                    return out;
                },
                Ok(raw) => {
                    let status = raw.0;
                    match checked_step(&request, attempt, status) {
                        CheckedStep::Accept => {
                            let out: RestResult<sonic_rs::Value> = match decode_json(raw.1.as_slice()) {
                                Ok(v) => Ok(v),
                                Err(e) => Err(RestError::Parse(e)),
                            };
                            assert(json_by(states, results, old(self).transport_spec(), self.transport_spec(), request, true, out) && results.len() <= retry_bound(request.retry_policy) + 1);
                            return out;
                        },
                        CheckedStep::Retry => {
                            attempt = attempt + 1;
                        },
                        CheckedStep::Reject => {
                            let retryable = 500 <= status && status < 600;
                            let reason = rejection_reason(status, raw.1.as_slice());
                            let out: RestResult<sonic_rs::Value> = Err(
                                RestError::Rejected { status, reason, retryable },
                            );
                            assert(json_by(states, results, old(self).transport_spec(), self.transport_spec(), request, true, out) && results.len() <= retry_bound(request.retry_policy) + 1);
                            return out;
                        },
                    }
                },
            }
        }
    }

    /// Checked execution that decodes the body of the final 2xx answer as JSON.
    pub fn execute_json_checked(&mut self, request: RestRequest) -> (r: RestResult<sonic_rs::Value>)
        ensures
            exists|states: Seq<T>, results: Seq<RestResult<RestResponse>>|
                json_by(
                    states,
                    results,
                    old(self).transport_spec(),
                    final(self).transport_spec(),
                    request,
                    true,
                    r,
                ) && results.len() <= retry_bound(request.retry_policy) + 1,
    {
        self.execute_json_checked_direct(request)
    }

    /// One attempt with the request as given.
    pub fn get_response(&mut self, request: RestRequest) -> (r: RestResult<RestResponse>)
        ensures
            T::step(old(self).transport_spec(), final(self).transport_spec(), request, r),
    {
        self.execute(request)
    }

    /// One GET attempt to `url`.
    pub fn get_url_response(&mut self, url: &str) -> (r: RestResult<RestResponse>)
        ensures
            exists|request: RestRequest|
                plain_request(request, "GET"@, url@, None) && T::step(
                    old(self).transport_spec(),
                    final(self).transport_spec(),
                    request,
                    r,
                ),
    {
        let request = RestRequest::get(url);
        let ghost sent = request;
        let r = self.execute(request);
        assert(plain_request(sent, "GET"@, url@, None));
        r
    }

    /// One POST attempt to `url` carrying `body`.
    pub fn post_response(&mut self, url: &str, body: Vec<u8>) -> (r: RestResult<RestResponse>)
        ensures
            exists|request: RestRequest|
                plain_request(request, "POST"@, url@, Some(body@)) && T::step(
                    old(self).transport_spec(),
                    final(self).transport_spec(),
                    request,
                    r,
                ),
    {
        let ghost body_view = body@;
        let request = RestRequest::post(url).with_body(body);
        let ghost sent = request;
        let r = self.execute(request);
        assert(plain_request(sent, "POST"@, url@, Some(body_view)));
        r
    }
}

} // verus!
