use std::time::Duration;
use vstd::prelude::*;

use crate::codec::{decode_json, rejection_reason};
use crate::error::{RestError, RestResult};

verus! {

/// The span of `secs` whole seconds.
pub uninterp spec fn seconds_duration(secs: u64) -> Duration;

/// The span of `millis` milliseconds.
pub uninterp spec fn millis_duration(millis: u64) -> Duration;

/// Relies on `Duration::from_secs`: a span of whole seconds, the same for the same count.
pub assume_specification[ core::time::Duration::from_secs ](secs: u64) -> (r: Duration)
    ensures
        r == seconds_duration(secs),
;

/// Relies on `Duration::from_millis`: a span of milliseconds, the same for the same count.
pub assume_specification[ core::time::Duration::from_millis ](millis: u64) -> (r: Duration)
    ensures
        r == millis_duration(millis),
;

/// Relies on `Duration`'s `Clone`: a `Copy` type, cloned as it is.
pub assume_specification[ <core::time::Duration as Clone>::clone ](d: &Duration) -> (r: Duration)
    ensures
        r == *d,
;

/// Status, body and elapsed time of an answer, without its headers.
pub type RestRawResponse = (u16, Vec<u8>, Duration);

/// Seconds a request may take when the caller sets no timeout.
pub const DEFAULT_REQUEST_TIMEOUT_SECS: u64 = 2;

/// HTTP statuses in [200, 300) count as success.
pub open spec fn is_success_status(status: u16) -> bool {
    200 <= status < 300
}

/// Statuses in [500, 600) make a rejection retryable.
pub open spec fn is_server_error_status(status: u16) -> bool {
    500 <= status < 600
}

/// Which statuses may be retried, and how many retries a call may make.
#[derive(Clone, Debug, PartialEq, Eq)]
pub struct RestRetryPolicy {
    pub max_retries: usize,
    pub statuses: Vec<u16>,
}

/// Whether a policy asks for another attempt after `attempt` retries, on this status.
pub open spec fn policy_retries(policy: RestRetryPolicy, status: u16, attempt: int) -> bool {
    attempt < policy.max_retries && policy.statuses@.contains(status)
}

/// Whether an optional policy asks for another attempt: never without one.
pub open spec fn retries_on(policy: Option<RestRetryPolicy>, status: u16, attempt: int) -> bool {
    match policy {
        Some(p) => policy_retries(p, status, attempt),
        None => false,
    }
}

impl RestRetryPolicy {
    pub fn should_retry(&self, status: u16, attempt: usize) -> (r: bool)
        ensures
            r == policy_retries(*self, status, attempt as int),
    {
        if attempt >= self.max_retries {
            return false;
        }
        let mut i: usize = 0;
        while i < self.statuses.len()
            invariant
                i <= self.statuses@.len(),
                attempt < self.max_retries,
                forall|j: int| 0 <= j < i ==> self.statuses@[j] != status,
            decreases self.statuses@.len() - i,
        {
            if self.statuses[i] == status {
                assert(self.statuses@[i as int] == status);
                return true;
            }
            i = i + 1;
        }
        false
    }
}

/// Copies a byte vector.
pub(crate) fn copy_bytes(v: &Vec<u8>) -> (r: Vec<u8>)
    ensures
        r@ == v@,
{
    let mut out: Vec<u8> = Vec::new();
    let mut i: usize = 0;
    while i < v.len()
        invariant
            i <= v@.len(),
            out@ == v@.subrange(0, i as int),
        decreases v@.len() - i,
    {
        out.push(v[i]);
        i = i + 1;
        assert(out@ =~= v@.subrange(0, i as int));
    }
    assert(out@ =~= v@);
    out
}

/// Copies an ordered header list.
pub(crate) fn copy_headers(h: &Vec<(String, Vec<u8>)>) -> (r: Vec<(String, Vec<u8>)>)
    ensures
        same_headers(r@, h@),
{
    let mut out: Vec<(String, Vec<u8>)> = Vec::new();
    let mut i: usize = 0;
    while i < h.len()
        invariant
            i <= h@.len(),
            out@.len() == i,
            forall|j: int|
                0 <= j < i ==> #[trigger] out@[j].0@ == h@[j].0@ && out@[j].1@ == h@[j].1@,
        decreases h@.len() - i,
    {
        let key = h[i].0.clone();
        let value = copy_bytes(&h[i].1);
        out.push((key, value));
        i = i + 1;
    }
    out
}

/// Copies a status list.
fn copy_statuses(v: &Vec<u16>) -> (r: Vec<u16>)
    ensures
        r@ == v@,
{
    let mut out: Vec<u16> = Vec::new();
    let mut i: usize = 0;
    while i < v.len()
        invariant
            i <= v@.len(),
            out@ == v@.subrange(0, i as int),
        decreases v@.len() - i,
    {
        out.push(v[i]);
        i = i + 1;
        assert(out@ =~= v@.subrange(0, i as int));
    }
    assert(out@ =~= v@);
    out
}

/// Two header lists hold the same names and values in the same order.
pub open spec fn same_headers(a: Seq<(String, Vec<u8>)>, b: Seq<(String, Vec<u8>)>) -> bool {
    &&& a.len() == b.len()
    &&& forall|i: int| 0 <= i < a.len() ==> #[trigger] a[i].0@ == b[i].0@ && a[i].1@ == b[i].1@
}

/// `copy` holds the same method, URL, headers, body, timeout and policy as `request`.
pub open spec fn copies_request(copy: RestRequest, request: RestRequest) -> bool {
    &&& copy.method@ == request.method@
    &&& copy.url@ == request.url@
    &&& same_headers(copy.headers@, request.headers@)
    &&& match (copy.body, request.body) {
        (Some(a), Some(b)) => a@ == b@,
        (None, None) => true,
        _ => false,
    }
    &&& copy.timeout == request.timeout
    &&& match (copy.retry_policy, request.retry_policy) {
        (Some(a), Some(b)) => a.max_retries == b.max_retries && a.statuses@ == b.statuses@,
        (None, None) => true,
        _ => false,
    }
}

/// `copy` holds the same status, headers, body and elapsed time as `response`.
pub open spec fn copies_response(copy: RestResponse, response: RestResponse) -> bool {
    &&& copy.status == response.status
    &&& same_headers(copy.headers@, response.headers@)
    &&& copy.body@ == response.body@
    &&& copy.elapsed == response.elapsed
}

/// One request: method, URL, ordered headers, optional body, timeout and retry policy.
#[derive(Clone, Debug)]
pub struct RestRequest {
    pub method: String,
    pub url: String,
    pub headers: Vec<(String, Vec<u8>)>,
    pub body: Option<Vec<u8>>,
    pub timeout: Option<Duration>,
    pub retry_policy: Option<RestRetryPolicy>,
}

impl RestRequest {
    pub fn new(method: &str, url: &str) -> (r: RestRequest)
        ensures
            r.method@ == method@,
            r.url@ == url@,
            r.headers@.len() == 0,
            r.body is None,
            r.timeout == Some(seconds_duration(DEFAULT_REQUEST_TIMEOUT_SECS)),
            r.retry_policy is None,
    {
        RestRequest {
            method: method.to_owned(),
            url: url.to_owned(),
            headers: Vec::new(),
            body: None,
            timeout: Some(Duration::from_secs(DEFAULT_REQUEST_TIMEOUT_SECS)),
            retry_policy: None,
        }
    }

    pub fn get(url: &str) -> (r: RestRequest)
        ensures
            r.method@ == "GET"@,
            r.url@ == url@,
            r.headers@.len() == 0,
            r.body is None,
            r.timeout == Some(seconds_duration(DEFAULT_REQUEST_TIMEOUT_SECS)),
            r.retry_policy is None,
    {
        RestRequest::new("GET", url)
    }

    pub fn post(url: &str) -> (r: RestRequest)
        ensures
            r.method@ == "POST"@,
            r.url@ == url@,
            r.headers@.len() == 0,
            r.body is None,
            r.timeout == Some(seconds_duration(DEFAULT_REQUEST_TIMEOUT_SECS)),
            r.retry_policy is None,
    {
        RestRequest::new("POST", url)
    }

    pub fn with_header(self, key: &str, value: Vec<u8>) -> (r: RestRequest)
        ensures
            r.headers@.len() == self.headers@.len() + 1,
            r.headers@.drop_last() == self.headers@,
            r.headers@.last().0@ == key@,
            r.headers@.last().1 == value,
            r.method == self.method,
            r.url == self.url,
            r.body == self.body,
            r.timeout == self.timeout,
            r.retry_policy == self.retry_policy,
    {
        let mut r = self;
        r.headers.push((key.to_owned(), value));
        assert(r.headers@.drop_last() =~= self.headers@);
        r
    }

    pub fn with_body(self, body: Vec<u8>) -> (r: RestRequest)
        ensures
            r == (RestRequest { body: Some(body), ..self }),
    {
        RestRequest { body: Some(body), ..self }
    }

    pub fn with_timeout(self, timeout: Duration) -> (r: RestRequest)
        ensures
            r == (RestRequest { timeout: Some(timeout), ..self }),
    {
        RestRequest { timeout: Some(timeout), ..self }
    }

    pub fn with_retry_on_status(self, status: u16, max_retries: usize) -> (r: RestRequest)
        ensures
            r.retry_policy matches Some(p) && p.max_retries == max_retries && p.statuses@ =~= seq![status],
            r.method == self.method,
            r.url == self.url,
            r.headers == self.headers,
            r.body == self.body,
            r.timeout == self.timeout,
    {
        let statuses = vec![status];
        self.with_retry_on_statuses(statuses, max_retries)
    }

    pub fn with_retry_on_statuses(self, statuses: Vec<u16>, max_retries: usize) -> (r: RestRequest)
        ensures
            r == (RestRequest {
                retry_policy: Some(RestRetryPolicy { max_retries, statuses }),
                ..self
            }),
    {
        RestRequest { retry_policy: Some(RestRetryPolicy { max_retries, statuses }), ..self }
    }

    pub fn should_retry_status(&self, status: u16, attempt: usize) -> (r: bool)
        ensures
            r == retries_on(self.retry_policy, status, attempt as int),
    {
        match &self.retry_policy {
            Some(policy) => policy.should_retry(status, attempt),
            None => false,
        }
    }

    /// A copy of the request, field by field.
    pub fn duplicate(&self) -> (r: RestRequest)
        ensures
            copies_request(r, *self),
    {
        let body = match &self.body {
            Some(b) => Some(copy_bytes(b)),
            None => None,
        };
        let retry_policy = match &self.retry_policy {
            Some(p) => Some(
                RestRetryPolicy { max_retries: p.max_retries, statuses: copy_statuses(&p.statuses) },
            ),
            None => None,
        };
        RestRequest {
            method: self.method.clone(),
            url: self.url.clone(),
            headers: copy_headers(&self.headers),
            body,
            timeout: self.timeout,
            retry_policy,
        }
    }
}

/// A received response: status, ordered headers, body and elapsed time.
#[derive(Clone, Debug)]
pub struct RestResponse {
    pub status: u16,
    pub headers: Vec<(String, Vec<u8>)>,
    pub body: Vec<u8>,
    pub elapsed: Duration,
}

/// The error that a non-2xx answer with this status and body is classified as.
pub open spec fn rejection_of(status: u16, body: Seq<u8>, err: RestError) -> bool {
    &&& err matches RestError::Rejected { status: s, reason, retryable }
    &&& s == status
    &&& reason@ == crate::codec::rejection_text(status, body)
    &&& retryable == is_server_error_status(status)
}

impl RestResponse {
    pub fn status(&self) -> (r: u16)
        ensures
            r == self.status,
    {
        self.status
    }

    pub fn is_success(&self) -> (r: bool)
        ensures
            r == is_success_status(self.status),
    {
        200 <= self.status && self.status < 300
    }

    pub fn body(&self) -> (r: &[u8])
        ensures
            r@ == self.body@,
    {
        self.body.as_slice()
    }

    /// Decodes the body as JSON.
    pub fn json(&self) -> (r: RestResult<sonic_rs::Value>)
        ensures
            r.is_ok() == crate::codec::json_decodes(self.body@),
            r is Err ==> r->Err_0 is Parse,
    {
        match decode_json(self.body.as_slice()) {
            Ok(v) => Ok(v),
            Err(e) => Err(RestError::Parse(e)),
        }
    }

    /// Succeeds on a 2xx status; otherwise a rejection that is retryable for 5xx.
    pub fn ensure_success(&self) -> (r: RestResult<()>)
        ensures
            is_success_status(self.status) <==> r is Ok,
            r is Err ==> rejection_of(self.status, self.body@, r->Err_0),
    {
        if self.is_success() {
            Ok(())
        } else {
            let retryable = 500 <= self.status && self.status < 600;
            let reason = rejection_reason(self.status, self.body.as_slice());
            Err(RestError::Rejected { status: self.status, reason, retryable })
        }
    }
}

} // verus!
