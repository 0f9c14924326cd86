use vstd::prelude::*;

verus! {

/// Phase of a transport that records its activity.
#[derive(Clone, Copy, Debug, PartialEq, Eq, Structural)]
pub enum RestTransportState {
    Idle,
    Busy,
    Error,
}

/// The closed set of failure kinds.
#[derive(Clone, Copy, Debug, PartialEq, Eq, Structural)]
pub enum RestErrorKind {
    Connect,
    Send,
    Receive,
    Timeout,
    Rejected,
    Parse,
    Internal,
    MockTransport,
}

/// reqwest's error type, carried as the source of network failures.
#[verifier::external_type_specification]
#[verifier::external_body]
pub struct ExReqwestError(reqwest::Error);

/// The HTTP status code type that reqwest reports.
#[verifier::external_type_specification]
#[verifier::external_body]
pub struct ExStatusCode(reqwest::StatusCode);

/// sonic_rs's error type, carried as the source of JSON failures.
#[verifier::external_type_specification]
#[verifier::external_body]
pub struct ExJsonError(sonic_rs::Error);

/// Whether a reqwest error has a timeout in its source chain.
pub uninterp spec fn reqwest_timed_out(e: reqwest::Error) -> bool;

/// Whether a reqwest error arose while connecting.
pub uninterp spec fn reqwest_connect(e: reqwest::Error) -> bool;

/// Whether a reqwest error arose while sending the request.
pub uninterp spec fn reqwest_request(e: reqwest::Error) -> bool;

/// The HTTP status that a reqwest error carries, if any.
pub uninterp spec fn reqwest_status(e: reqwest::Error) -> Option<reqwest::StatusCode>;

/// The number of an HTTP status code.
pub uninterp spec fn status_number(s: reqwest::StatusCode) -> u16;

/// Relies on `reqwest::Error::is_timeout`: walks the error's source chain, so the answer is
/// a function of the error.
pub assume_specification[ reqwest::Error::is_timeout ](e: &reqwest::Error) -> (r: bool)
    ensures
        r == reqwest_timed_out(*e),
;

/// Relies on `reqwest::Error::is_connect`: walks the error's source chain.
pub assume_specification[ reqwest::Error::is_connect ](e: &reqwest::Error) -> (r: bool)
    ensures
        r == reqwest_connect(*e),
;

/// Relies on `reqwest::Error::is_request`: reads the error's kind.
pub assume_specification[ reqwest::Error::is_request ](e: &reqwest::Error) -> (r: bool)
    ensures
        r == reqwest_request(*e),
;

/// Relies on `reqwest::Error::status`: reads the error's kind.
pub assume_specification[ reqwest::Error::status ](e: &reqwest::Error) -> (r: Option<
    reqwest::StatusCode,
>)
    ensures
        r == reqwest_status(*e),
;

/// Relies on `http::StatusCode::as_u16`: the numeric code it holds.
pub assume_specification[ reqwest::StatusCode::as_u16 ](s: &reqwest::StatusCode) -> (r: u16)
    ensures
        r == status_number(*s),
;

/// The status number a reqwest error carries, if any.
pub open spec fn reqwest_status_number(e: reqwest::Error) -> Option<u16> {
    match reqwest_status(e) {
        Some(code) => Some(status_number(code)),
        None => None,
    }
}

/// Kinds that name local, deterministic failures: never retryable.
pub open spec fn is_local_kind(kind: RestErrorKind) -> bool {
    kind == RestErrorKind::Parse || kind == RestErrorKind::Internal
}

/// A single structured failure: kind, optional status, message and retryability.
#[derive(Debug)]
pub enum RestError {
    Connect { source: reqwest::Error, status: Option<u16>, retryable: bool, message: String },
    Send { source: reqwest::Error, status: Option<u16>, retryable: bool, message: String },
    Receive { source: reqwest::Error, status: Option<u16>, retryable: bool, message: String },
    Timeout { status: Option<u16>, retryable: bool, message: String },
    Rejected { status: u16, reason: String, retryable: bool },
    Parse(sonic_rs::Error),
    Internal { message: String },
    MockTransport { kind: RestErrorKind, status: Option<u16>, retryable: bool, message: String },
}

pub type RestResult<T> = Result<T, RestError>;

/// Retryability of a transport failure that is not a timeout, by the phase it came from.
pub open spec fn transport_retryable(
    kind: RestErrorKind,
    connect: bool,
    request: bool,
) -> bool {
    match kind {
        RestErrorKind::Connect => connect,
        RestErrorKind::Send => request || connect,
        RestErrorKind::Receive => request,
        RestErrorKind::Timeout => true,
        _ => false,
    }
}

impl RestError {
    pub open spec fn kind_spec(&self) -> RestErrorKind {
        match self {
            RestError::Connect { .. } => RestErrorKind::Connect,
            RestError::Send { .. } => RestErrorKind::Send,
            RestError::Receive { .. } => RestErrorKind::Receive,
            RestError::Timeout { .. } => RestErrorKind::Timeout,
            RestError::Rejected { .. } => RestErrorKind::Rejected,
            RestError::Parse(_) => RestErrorKind::Parse,
            RestError::Internal { .. } => RestErrorKind::Internal,
            RestError::MockTransport { kind, .. } => *kind,
        }
    }

    pub open spec fn status_spec(&self) -> Option<u16> {
        match self {
            RestError::Connect { status, .. } => *status,
            RestError::Send { status, .. } => *status,
            RestError::Receive { status, .. } => *status,
            RestError::Timeout { status, .. } => *status,
            RestError::Rejected { status, .. } => Some(*status),
            RestError::Parse(_) => None,
            RestError::Internal { .. } => None,
            RestError::MockTransport { status, .. } => *status,
        }
    }

    pub open spec fn retryable_spec(&self) -> bool {
        match self {
            RestError::Connect { retryable, .. } => *retryable,
            RestError::Send { retryable, .. } => *retryable,
            RestError::Receive { retryable, .. } => *retryable,
            RestError::Timeout { retryable, .. } => *retryable,
            RestError::Rejected { retryable, .. } => *retryable,
            RestError::Parse(_) => false,
            RestError::Internal { .. } => false,
            RestError::MockTransport { kind, retryable, .. } => *retryable && !is_local_kind(*kind),
        }
    }

    /// Classifies a failure of the network stack from what it reports about itself:
    /// a timeout wins over the phase; otherwise the phase picks the variant
    /// (anything but `Connect` and `Send` is reported as `Receive`).
    pub fn from_transport_failure(
        kind: RestErrorKind,
        source: reqwest::Error,
        status: Option<u16>,
        message: String,
        timed_out: bool,
        connect: bool,
        request: bool,
    ) -> (r: RestError)
        ensures
            timed_out ==> r == (RestError::Timeout { status, retryable: true, message }),
            !timed_out && kind == RestErrorKind::Connect ==> r == (RestError::Connect {
                source,
                status,
                retryable: transport_retryable(kind, connect, request),
                message,
            }),
            !timed_out && kind == RestErrorKind::Send ==> r == (RestError::Send {
                source,
                status,
                retryable: transport_retryable(kind, connect, request),
                message,
            }),
            !timed_out && kind != RestErrorKind::Connect && kind != RestErrorKind::Send ==> r
                == (RestError::Receive {
                source,
                status,
                retryable: transport_retryable(kind, connect, request),
                message,
            }),
    {
        if timed_out {
            return RestError::Timeout { status, retryable: true, message };
        }
        let retryable = match kind {
            RestErrorKind::Connect => connect,
            RestErrorKind::Send => request || connect,
            RestErrorKind::Receive => request,
            RestErrorKind::Timeout => true,
            _ => false,
        };
        match kind {
            RestErrorKind::Connect => RestError::Connect { source, status, retryable, message },
            RestErrorKind::Send => RestError::Send { source, status, retryable, message },
            _ => RestError::Receive { source, status, retryable, message },
        }
    }

    /// Maps a failure of the network stack, raised in the given phase, to an error.
    pub fn from_reqwest(kind: RestErrorKind, err: reqwest::Error) -> (r: RestError)
        ensures
            (r.kind_spec() == RestErrorKind::Timeout) == reqwest_timed_out(err),
            r.status_spec() == reqwest_status_number(err),
            reqwest_timed_out(err) ==> r.retryable_spec(),
            !reqwest_timed_out(err) ==> r.kind_spec() == match kind {
                RestErrorKind::Connect => RestErrorKind::Connect,
                RestErrorKind::Send => RestErrorKind::Send,
                _ => RestErrorKind::Receive,
            } && r.retryable_spec() == transport_retryable(
                kind,
                reqwest_connect(err),
                reqwest_request(err),
            ),
    {
        let status = match err.status() {
            Some(code) => Some(code.as_u16()),
            None => None,
        };
        let message = err.to_string();
        let timed_out = err.is_timeout();
        let connect = err.is_connect();
        let request = err.is_request();
        RestError::from_transport_failure(kind, err, status, message, timed_out, connect, request)
    }

    pub fn timeout(message: &str, status: Option<u16>, retryable: bool) -> (r: RestError)
        ensures
            r == (RestError::Timeout { status, retryable, message: r->Timeout_message }),
            r->Timeout_message@ == message@,
    {
        RestError::Timeout { status, retryable, message: message.to_owned() }
    }

    pub fn rejected(status: u16, reason: &str, retryable: bool) -> (r: RestError)
        ensures
            r == (RestError::Rejected { status, reason: r->Rejected_reason, retryable }),
            r->Rejected_reason@ == reason@,
    {
        RestError::Rejected { status, reason: reason.to_owned(), retryable }
    }

    pub fn internal(message: &str) -> (r: RestError)
        ensures
            r is Internal,
            r->Internal_message@ == message@,
    {
        RestError::Internal { message: message.to_owned() }
    }

    pub fn mock(kind: RestErrorKind, message: &str, status: Option<u16>, retryable: bool) -> (r:
        RestError)
        ensures
            r == (RestError::MockTransport {
                kind,
                status,
                retryable,
                message: r->MockTransport_message,
            }),
            r->MockTransport_message@ == message@,
    {
        RestError::MockTransport { kind, status, retryable, message: message.to_owned() }
    }

    pub fn mock_response(message: &str, status: Option<u16>, retryable: bool) -> (r: RestError)
        ensures
            r == (RestError::MockTransport {
                kind: RestErrorKind::MockTransport,
                status,
                retryable,
                message: r->MockTransport_message,
            }),
            r->MockTransport_message@ == message@,
    {
        RestError::mock(RestErrorKind::MockTransport, message, status, retryable)
    }

    pub fn connect(message: &str, status: Option<u16>, retryable: bool) -> (r: RestError)
        ensures
            r == (RestError::MockTransport {
                kind: RestErrorKind::Connect,
                status,
                retryable,
                message: r->MockTransport_message,
            }),
            r->MockTransport_message@ == message@,
    {
        RestError::mock(RestErrorKind::Connect, message, status, retryable)
    }

    pub fn send(message: &str, status: Option<u16>, retryable: bool) -> (r: RestError)
        ensures
            r == (RestError::MockTransport {
                kind: RestErrorKind::Send,
                status,
                retryable,
                message: r->MockTransport_message,
            }),
            r->MockTransport_message@ == message@,
    {
        RestError::mock(RestErrorKind::Send, message, status, retryable)
    }

    pub fn receive(message: &str, status: Option<u16>, retryable: bool) -> (r: RestError)
        ensures
            r == (RestError::MockTransport {
                kind: RestErrorKind::Receive,
                status,
                retryable,
                message: r->MockTransport_message,
            }),
            r->MockTransport_message@ == message@,
    {
        RestError::mock(RestErrorKind::Receive, message, status, retryable)
    }

    pub fn parse(err: sonic_rs::Error) -> (r: RestError)
        ensures
            r == RestError::Parse(err),
    {
        RestError::Parse(err)
    }

    pub fn kind(&self) -> (r: RestErrorKind)
        ensures
            r == self.kind_spec(),
    {
        match self {
            RestError::Connect { .. } => RestErrorKind::Connect,
            RestError::Send { .. } => RestErrorKind::Send,
            RestError::Receive { .. } => RestErrorKind::Receive,
            RestError::Timeout { .. } => RestErrorKind::Timeout,
            RestError::Rejected { .. } => RestErrorKind::Rejected,
            RestError::Parse(_) => RestErrorKind::Parse,
            RestError::Internal { .. } => RestErrorKind::Internal,
            RestError::MockTransport { kind, .. } => *kind,
        }
    }

    pub fn status(&self) -> (r: Option<u16>)
        ensures
            r == self.status_spec(),
    {
        match self {
            RestError::Connect { status, .. } => *status,
            RestError::Send { status, .. } => *status,
            RestError::Receive { status, .. } => *status,
            RestError::Timeout { status, .. } => *status,
            RestError::Rejected { status, .. } => Some(*status),
            RestError::Parse(_) => None,
            RestError::Internal { .. } => None,
            RestError::MockTransport { status, .. } => *status,
        }
    }

    pub fn is_retryable(&self) -> (r: bool)
        ensures
            r == self.retryable_spec(),
    {
        match self {
            RestError::Connect { retryable, .. } => *retryable,
            RestError::Send { retryable, .. } => *retryable,
            RestError::Receive { retryable, .. } => *retryable,
            RestError::Timeout { retryable, .. } => *retryable,
            RestError::Rejected { retryable, .. } => *retryable,
            RestError::Parse(_) => false,
            RestError::Internal { .. } => false,
            RestError::MockTransport { kind, retryable, .. } => *retryable && !(*kind
                == RestErrorKind::Parse || *kind == RestErrorKind::Internal),
        }
    }
}

} // verus!
