use std::collections::VecDeque;
use std::time::Duration;
use vstd::prelude::*;
use vstd::string::{StringExecFns, StringSliceAdditionalSpecFns};

use crate::client::RestTransport;
use crate::error::{RestError, RestErrorKind, RestResult, RestTransportState};
use crate::model::{RestRequest, RestResponse};
use crate::model::{copies_request, copies_response, copy_bytes, copy_headers, millis_duration};

verus! {

/// The kinds of step a scenario is written in.
#[derive(Clone, Copy, Debug, PartialEq, Eq, Structural)]
pub enum MockScenarioStepKind {
    Pass,
    Delay,
    Reject,
    Drop,
    Replay,
}

/// One scripted step, with the status, message and delay that its kind reads.
#[derive(Clone, Debug)]
pub struct MockScenarioStep {
    pub kind: MockScenarioStepKind,
    pub status: Option<u16>,
    pub message: Option<String>,
    pub delay: Option<Duration>,
}

/// An ordered script of steps.
#[derive(Clone, Debug)]
pub struct MockScenario(Vec<MockScenarioStep>);

impl MockScenario {
    pub closed spec fn steps(&self) -> Seq<MockScenarioStep> {
        self.0@
    }

    pub fn new() -> (r: MockScenario)
        ensures
            r.steps().len() == 0,
    {
        MockScenario(Vec::new())
    }

    pub fn push(self, step: MockScenarioStep) -> (r: MockScenario)
        ensures
            r.steps() == self.steps().push(step),
    {
        let mut v = self.0;
        v.push(step);
        MockScenario(v)
    }

    pub fn pass(self) -> (r: MockScenario)
        ensures
            r.steps() == self.steps().push(
                MockScenarioStep {
                    kind: MockScenarioStepKind::Pass,
                    status: None,
                    message: None,
                    delay: None,
                },
            ),
    {
        self.push(
            MockScenarioStep {
                kind: MockScenarioStepKind::Pass,
                status: None,
                message: None,
                delay: None,
            },
        )
    }

    pub fn delay(self, duration: Duration) -> (r: MockScenario)
        ensures
            r.steps() == self.steps().push(
                MockScenarioStep {
                    kind: MockScenarioStepKind::Delay,
                    status: None,
                    message: None,
                    delay: Some(duration),
                },
            ),
    {
        self.push(
            MockScenarioStep {
                kind: MockScenarioStepKind::Delay,
                status: None,
                message: None,
                delay: Some(duration),
            },
        )
    }

    pub fn reject(self, status: u16, message: &str) -> (r: MockScenario)
        ensures
            r.steps().len() == self.steps().len() + 1,
            r.steps().drop_last() == self.steps(),
            r.steps().last().kind == MockScenarioStepKind::Reject,
            r.steps().last().status == Some(status),
            r.steps().last().message matches Some(m) && m@ == message@,
            r.steps().last().delay is None,
    {
        let r = self.push(
            MockScenarioStep {
                kind: MockScenarioStepKind::Reject,
                status: Some(status),
                message: Some(message.to_owned()),
                delay: None,
            },
        );
        assert(r.steps().drop_last() =~= self.steps());
        r
    }

    pub fn drop_response(self) -> (r: MockScenario)
        ensures
            r.steps() == self.steps().push(
                MockScenarioStep {
                    kind: MockScenarioStepKind::Drop,
                    status: None,
                    message: None,
                    delay: None,
                },
            ),
    {
        self.push(
            MockScenarioStep {
                kind: MockScenarioStepKind::Drop,
                status: None,
                message: None,
                delay: None,
            },
        )
    }
}

impl Default for MockScenario {
    fn default() -> (r: MockScenario)
        ensures
            r.steps().len() == 0,
    {
        MockScenario::new()
    }
}

/// A canned response: status, ordered headers and body.
#[derive(Clone, Debug)]
pub struct MockResponse {
    pub status: u16,
    pub headers: Vec<(String, Vec<u8>)>,
    pub body: Vec<u8>,
}

/// The bytes of a text.
fn text_bytes(text: &str) -> (r: Vec<u8>)
    ensures
        r@ == text.spec_bytes(),
{
    let bytes = text.as_bytes();
    let mut out: Vec<u8> = Vec::new();
    let mut i: usize = 0;
    while i < bytes.len()
        invariant
            i <= bytes@.len(),
            bytes@ == text.spec_bytes(),
            out@ == bytes@.subrange(0, i as int),
        decreases bytes@.len() - i,
    {
        out.push(bytes[i]);
        i = i + 1;
        assert(out@ =~= bytes@.subrange(0, i as int));
    }
    assert(out@ =~= bytes@);
    out
}

impl MockResponse {
    pub fn new(status: u16, body: Vec<u8>) -> (r: MockResponse)
        ensures
            r.status == status,
            r.headers@.len() == 0,
            r.body == body,
    {
        MockResponse { status, headers: Vec::new(), body }
    }

    pub fn with_header(self, key: &str, value: Vec<u8>) -> (r: MockResponse)
        ensures
            r.status == self.status,
            r.body == self.body,
            r.headers@.len() == self.headers@.len() + 1,
            r.headers@.drop_last() == self.headers@,
            r.headers@.last().0@ == key@,
            r.headers@.last().1 == value,
    {
        let mut r = self;
        r.headers.push((key.to_owned(), value));
        assert(r.headers@.drop_last() =~= self.headers@);
        r
    }

    pub fn bytes(status: u16, body: Vec<u8>) -> (r: MockResponse)
        ensures
            r.status == status,
            r.headers@.len() == 0,
            r.body == body,
    {
        MockResponse::new(status, body)
    }

    pub fn text(status: u16, body: &str) -> (r: MockResponse)
        ensures
            r.status == status,
            r.headers@.len() == 0,
            r.body@ == body.spec_bytes(),
    {
        MockResponse::new(status, text_bytes(body))
    }

    pub fn text_error(status: u16, message: &str) -> (r: MockResponse)
        ensures
            r.status == status,
            r.headers@.len() == 0,
            r.body@ == message.spec_bytes(),
    {
        MockResponse::text(status, message)
    }
}

/// One scripted transport outcome, consumed by one call.
#[derive(Clone, Debug)]
pub enum MockBehavior {
    Pass,
    Delay(Duration),
    Reject { status: u16, reason: String },
    ConnectError { status: Option<u16>, reason: String, retryable: bool },
    SendError { status: Option<u16>, reason: String, retryable: bool },
    ReceiveError { status: Option<u16>, reason: String, retryable: bool },
    TimeoutError { status: Option<u16>, reason: String, retryable: bool },
    InternalError { reason: String },
    Drop,
    Replay(Vec<MockResponse>),
}

impl MockBehavior {
    pub fn pass() -> (r: MockBehavior)
        ensures
            r is Pass,
    {
        MockBehavior::Pass
    }

    pub fn delay(ms: u64) -> (r: MockBehavior)
        ensures
            r == MockBehavior::Delay(millis_duration(ms)),
    {
        MockBehavior::Delay(Duration::from_millis(ms))
    }

    pub fn reject(status: u16, reason: &str) -> (r: MockBehavior)
        ensures
            r matches MockBehavior::Reject { status: s, reason: m } && s == status && m@ == reason@,
    {
        MockBehavior::Reject { status, reason: reason.to_owned() }
    }

    pub fn connect_error(reason: &str, status: Option<u16>, retryable: bool) -> (r: MockBehavior)
        ensures
            r matches MockBehavior::ConnectError { status: s, reason: m, retryable: t } && s
                == status && m@ == reason@ && t == retryable,
    {
        MockBehavior::ConnectError { status, reason: reason.to_owned(), retryable }
    }

    pub fn send_error(reason: &str, status: Option<u16>, retryable: bool) -> (r: MockBehavior)
        ensures
            r matches MockBehavior::SendError { status: s, reason: m, retryable: t } && s == status
                && m@ == reason@ && t == retryable,
    {
        MockBehavior::SendError { status, reason: reason.to_owned(), retryable }
    }

    pub fn receive_error(reason: &str, status: Option<u16>, retryable: bool) -> (r: MockBehavior)
        ensures
            r matches MockBehavior::ReceiveError { status: s, reason: m, retryable: t } && s
                == status && m@ == reason@ && t == retryable,
    {
        MockBehavior::ReceiveError { status, reason: reason.to_owned(), retryable }
    }

    pub fn timeout_error(reason: &str, status: Option<u16>, retryable: bool) -> (r: MockBehavior)
        ensures
            r matches MockBehavior::TimeoutError { status: s, reason: m, retryable: t } && s
                == status && m@ == reason@ && t == retryable,
    {
        MockBehavior::TimeoutError { status, reason: reason.to_owned(), retryable }
    }

    pub fn internal_error(reason: &str) -> (r: MockBehavior)
        ensures
            r matches MockBehavior::InternalError { reason: m } && m@ == reason@,
    {
        MockBehavior::InternalError { reason: reason.to_owned() }
    }

    pub fn drop_response() -> (r: MockBehavior)
        ensures
            r is Drop,
    {
        MockBehavior::Drop
    }

    pub fn replay(frames: Vec<MockResponse>) -> (r: MockBehavior)
        ensures
            r == MockBehavior::Replay(frames),
    {
        MockBehavior::Replay(frames)
    }
}

impl Default for MockBehavior {
    fn default() -> (r: MockBehavior)
        ensures
            r is Pass,
    {
        MockBehavior::Pass
    }
}

/// The operation a behavior is drawn for.
#[derive(Clone, Copy, Debug, PartialEq, Eq, Structural)]
pub enum MockOperation {
    Request,
}

/// The behavior that a scenario step makes of the behavior drawn beside it: a drop,
/// a delay with its duration and a reject override it; the other steps keep it.
pub open spec fn overrides(step: MockScenarioStep, drawn: MockBehavior, r: MockBehavior) -> bool {
    match step.kind {
        MockScenarioStepKind::Drop => r is Drop,
        MockScenarioStepKind::Delay => match step.delay {
            Some(d) => r == MockBehavior::Delay(d),
            None => r == drawn,
        },
        MockScenarioStepKind::Reject => r matches MockBehavior::Reject { status, reason } && status
            == match step.status {
            Some(s) => s,
            None => 500u16,
        } && reason@ == match step.message {
            Some(m) => m@,
            None => "rejected"@,
        },
        _ => r == drawn,
    }
}

/// The behavior that a scenario step stands for when it is queued as a plain behavior.
pub open spec fn step_behavior(step: MockScenarioStep, r: MockBehavior) -> bool {
    match step.kind {
        MockScenarioStepKind::Pass => r is Pass,
        MockScenarioStepKind::Delay => r == MockBehavior::Delay(
            match step.delay {
                Some(d) => d,
                None => millis_duration(0),
            },
        ),
        MockScenarioStepKind::Reject => r matches MockBehavior::Reject { status, reason } && status
            == match step.status {
            Some(s) => s,
            None => 500u16,
        } && reason@ == match step.message {
            Some(m) => m@,
            None => "rejected"@,
        },
        MockScenarioStepKind::Drop => r is Drop,
        MockScenarioStepKind::Replay => r is Pass,
    }
}

/// Queued behaviors, and the scenario steps that take priority over them.
#[derive(Clone, Debug)]
pub struct MockBehaviorPlan {
    request: VecDeque<MockBehavior>,
    scenario: VecDeque<MockScenarioStep>,
}

impl MockBehaviorPlan {
    pub closed spec fn behaviors(&self) -> Seq<MockBehavior> {
        self.request@
    }

    pub closed spec fn steps(&self) -> Seq<MockScenarioStep> {
        self.scenario@
    }

    pub fn new() -> (r: MockBehaviorPlan)
        ensures
            r.behaviors().len() == 0,
            r.steps().len() == 0,
    {
        MockBehaviorPlan { request: VecDeque::new(), scenario: VecDeque::new() }
    }

    pub fn push(&mut self, behavior: MockBehavior) -> (r: &mut MockBehaviorPlan)
        ensures
            (*r).behaviors() == old(self).behaviors().push(behavior),
            (*r).steps() == old(self).steps(),
            *final(self) == *final(r),
    {
        self.request.push_back(behavior);
        self
    }

    pub fn push_request(&mut self, behavior: MockBehavior) -> (r: &mut MockBehaviorPlan)
        ensures
            (*r).behaviors() == old(self).behaviors().push(behavior),
            (*r).steps() == old(self).steps(),
            *final(self) == *final(r),
    {
        self.push(behavior)
    }

    /// Takes the next queued behavior, or `Pass` when none is left.
    pub fn pop(&mut self, operation: MockOperation) -> (r: MockBehavior)
        ensures
            old(self).behaviors().len() > 0 ==> r == old(self).behaviors()[0]
                && final(self).behaviors() == old(self).behaviors().drop_first(),
            old(self).behaviors().len() == 0 ==> r is Pass && final(self).behaviors()
                == old(self).behaviors(),
            final(self).steps() == old(self).steps(),
    {
        match operation {
            MockOperation::Request => match self.request.pop_front() {
                Some(b) => b,
                None => MockBehavior::Pass,
            },
        }
    }

    pub fn push_scenario_step(&mut self, step: MockScenarioStep) -> (r: &mut MockBehaviorPlan)
        ensures
            (*r).steps() == old(self).steps().push(step),
            (*r).behaviors() == old(self).behaviors(),
            *final(self) == *final(r),
    {
        self.scenario.push_back(step);
        self
    }

    /// Takes the next scenario step, if any.
    fn pop_step(&mut self) -> (r: Option<MockScenarioStep>)
        ensures
            old(self).steps().len() > 0 ==> r == Some(old(self).steps()[0]) && final(self).steps()
                == old(self).steps().drop_first(),
            old(self).steps().len() == 0 ==> r is None && final(self).steps() == old(self).steps(),
            final(self).behaviors() == old(self).behaviors(),
    {
        self.scenario.pop_front()
    }

    /// A plan holding each step of the scenario twice: as a plain behavior and as a
    /// scenario step.
    pub fn scenario(scenario: MockScenario) -> (r: MockBehaviorPlan)
        ensures
            r.steps() == scenario.steps(),
            r.behaviors().len() == scenario.steps().len(),
            forall|i: int|
                0 <= i < scenario.steps().len() ==> step_behavior(
                    #[trigger] scenario.steps()[i],
                    r.behaviors()[i],
                ),
    {
        let steps = scenario.0;
        let mut request: VecDeque<MockBehavior> = VecDeque::new();
        let mut i: usize = 0;
        while i < steps.len()
            invariant
                i <= steps@.len(),
                request@.len() == i,
                forall|j: int| 0 <= j < i ==> step_behavior(#[trigger] steps@[j], request@[j]),
            decreases steps@.len() - i,
        {
            let step = &steps[i];
            let behavior = match step.kind {
                MockScenarioStepKind::Pass => MockBehavior::Pass,
                MockScenarioStepKind::Delay => match step.delay {
                    Some(d) => MockBehavior::Delay(d),
                    None => MockBehavior::Delay(Duration::from_millis(0)),
                },
                MockScenarioStepKind::Reject => {
                    let status = match step.status {
                        Some(s) => s,
                        None => 500u16,
                    };
                    let reason = match &step.message {
                        Some(m) => m.clone(),
                        None => "rejected".to_owned(),
                    };
                    proof {
                        reveal_strlit("rejected");
                    }
                    MockBehavior::Reject { status, reason }
                },
                MockScenarioStepKind::Drop => MockBehavior::Drop,
                MockScenarioStepKind::Replay => MockBehavior::Pass,
            };
            request.push_back(behavior);
            i = i + 1;
        }
        let mut scenario_queue: VecDeque<MockScenarioStep> = VecDeque::new();
        let mut rest = steps;
        let ghost all = rest@;
        assert(all =~= scenario_queue@ + rest@);
        while rest.len() > 0
            invariant
                all == scenario_queue@ + rest@,
            decreases rest@.len(),
        {
            let s = rest.remove(0);
            scenario_queue.push_back(s);
            assert(all =~= scenario_queue@ + rest@);
        }
        assert(scenario_queue@ =~= all);
        MockBehaviorPlan { request, scenario: scenario_queue }
    }
}

impl Default for MockBehaviorPlan {
    fn default() -> (r: MockBehaviorPlan)
        ensures
            r.behaviors().len() == 0,
            r.steps().len() == 0,
    {
        MockBehaviorPlan::new()
    }
}

/// Responses queued for one (method, URL) pair.
#[derive(Debug)]
struct MockRoute {
    method: String,
    url: String,
    responses: VecDeque<MockResponse>,
}

/// Whether route `i` is keyed by this method and URL.
pub open spec fn route_key_is(
    routes: Seq<(Seq<char>, Seq<char>, Seq<MockResponse>)>,
    i: int,
    method: Seq<char>,
    url: Seq<char>,
) -> bool {
    routes[i].0 == method && routes[i].1 == url
}

/// Route `i` is the first keyed by this method and URL.
pub open spec fn is_first_route(
    routes: Seq<(Seq<char>, Seq<char>, Seq<MockResponse>)>,
    i: int,
    method: Seq<char>,
    url: Seq<char>,
) -> bool {
    &&& 0 <= i < routes.len()
    &&& route_key_is(routes, i, method, url)
    &&& forall|j: int| 0 <= j < i ==> !route_key_is(routes, j, method, url)
}

/// The responses queued for a method and URL: those of the first route with that key,
/// none when no route has it.
pub open spec fn routed(
    routes: Seq<(Seq<char>, Seq<char>, Seq<MockResponse>)>,
    method: Seq<char>,
    url: Seq<char>,
) -> Seq<MockResponse> {
    if exists|i: int| is_first_route(routes, i, method, url) {
        routes[choose|i: int| is_first_route(routes, i, method, url)].2
    } else {
        Seq::empty()
    }
}

/// Two routes that are both the first for a key are the same route.
proof fn lemma_first_route_unique(
    routes: Seq<(Seq<char>, Seq<char>, Seq<MockResponse>)>,
    i: int,
    k: int,
    method: Seq<char>,
    url: Seq<char>,
)
    requires
        is_first_route(routes, i, method, url),
        is_first_route(routes, k, method, url),
    ensures
        i == k,
{
    if i < k {
        assert(!route_key_is(routes, i, method, url));
    } else if k < i {
        assert(!route_key_is(routes, k, method, url));
    }
}

/// The queue of a key is that of its first route.
pub proof fn lemma_routed_at(
    routes: Seq<(Seq<char>, Seq<char>, Seq<MockResponse>)>,
    i: int,
    method: Seq<char>,
    url: Seq<char>,
)
    requires
        is_first_route(routes, i, method, url),
    ensures
        routed(routes, method, url) == routes[i].2,
{
    let k = choose|k: int| is_first_route(routes, k, method, url);
    lemma_first_route_unique(routes, i, k, method, url);
}

/// A key that no route has queues nothing.
pub proof fn lemma_routed_absent(
    routes: Seq<(Seq<char>, Seq<char>, Seq<MockResponse>)>,
    method: Seq<char>,
    url: Seq<char>,
)
    requires
        forall|j: int| 0 <= j < routes.len() ==> !route_key_is(routes, j, method, url),
    ensures
        routed(routes, method, url) == Seq::<MockResponse>::empty(),
{
    if exists|i: int| is_first_route(routes, i, method, url) {
        let i = choose|i: int| is_first_route(routes, i, method, url);
        assert(route_key_is(routes, i, method, url));
    }
}

/// Replacing the queue of route `i` by one under the same key keeps every route's key.
proof fn lemma_same_keys_update(
    routes: Seq<(Seq<char>, Seq<char>, Seq<MockResponse>)>,
    i: int,
    q: Seq<MockResponse>,
    method: Seq<char>,
    url: Seq<char>,
)
    requires
        0 <= i < routes.len(),
        route_key_is(routes, i, method, url),
    ensures
        forall|j: int, m2: Seq<char>, u2: Seq<char>|
            #![trigger route_key_is(routes.update(i, (method, url, q)), j, m2, u2)]
            #![trigger route_key_is(routes, j, m2, u2)]
            0 <= j < routes.len() ==> route_key_is(routes.update(i, (method, url, q)), j, m2, u2)
                == route_key_is(routes, j, m2, u2),
{
    let after = routes.update(i, (method, url, q));
    assert forall|j: int, m2: Seq<char>, u2: Seq<char>|
        0 <= j < routes.len() implies #[trigger] route_key_is(after, j, m2, u2) == route_key_is(
            routes,
            j,
            m2,
            u2,
        ) by {
        if j != i {
            assert(after[j] == routes[j]);
        }
    }
}

/// After the queue of the first route of a key is replaced, the key queues the new queue.
pub proof fn lemma_first_route_after_update(
    routes: Seq<(Seq<char>, Seq<char>, Seq<MockResponse>)>,
    i: int,
    q: Seq<MockResponse>,
    method: Seq<char>,
    url: Seq<char>,
)
    requires
        is_first_route(routes, i, method, url),
    ensures
        routed(routes.update(i, (method, url, q)), method, url) == q,
{
    lemma_same_keys_update(routes, i, q, method, url);
    assert(is_first_route(routes.update(i, (method, url, q)), i, method, url));
    lemma_routed_at(routes.update(i, (method, url, q)), i, method, url);
}

/// Appending a route keeps the keys of the routes before it.
proof fn lemma_same_keys_push(
    routes: Seq<(Seq<char>, Seq<char>, Seq<MockResponse>)>,
    entry: (Seq<char>, Seq<char>, Seq<MockResponse>),
)
    ensures
        forall|j: int, m2: Seq<char>, u2: Seq<char>|
            #![trigger route_key_is(routes.push(entry), j, m2, u2)]
            #![trigger route_key_is(routes, j, m2, u2)]
            0 <= j < routes.len() ==> route_key_is(routes.push(entry), j, m2, u2) == route_key_is(
                routes,
                j,
                m2,
                u2,
            ),
{
    assert forall|j: int, m2: Seq<char>, u2: Seq<char>|
        0 <= j < routes.len() implies #[trigger] route_key_is(routes.push(entry), j, m2, u2)
        == route_key_is(routes, j, m2, u2) by {
        assert(routes.push(entry)[j] == routes[j]);
    }
}

/// Replacing the queue of route `i` leaves the queues of every other key as they were.
proof fn lemma_routed_other_keys(
    routes: Seq<(Seq<char>, Seq<char>, Seq<MockResponse>)>,
    i: int,
    q: Seq<MockResponse>,
    method: Seq<char>,
    url: Seq<char>,
    m2: Seq<char>,
    u2: Seq<char>,
)
    requires
        0 <= i < routes.len(),
        route_key_is(routes, i, method, url),
        !(m2 == method && u2 == url),
    ensures
        routed(routes.update(i, (method, url, q)), m2, u2) == routed(routes, m2, u2),
{
    let after = routes.update(i, (method, url, q));
    lemma_same_keys_update(routes, i, q, method, url);
    if exists|j: int| is_first_route(routes, j, m2, u2) {
        let j = choose|j: int| is_first_route(routes, j, m2, u2);
        assert(is_first_route(after, j, m2, u2));
        lemma_routed_at(routes, j, m2, u2);
        lemma_routed_at(after, j, m2, u2);
    } else {
        if exists|j: int| is_first_route(after, j, m2, u2) {
            let j = choose|j: int| is_first_route(after, j, m2, u2);
            assert(is_first_route(routes, j, m2, u2));
        }
    }
}

/// Appending a route for a key that no route has gives that key the route's queue and
/// leaves every other key as it was.
proof fn lemma_routed_appended(
    routes: Seq<(Seq<char>, Seq<char>, Seq<MockResponse>)>,
    q: Seq<MockResponse>,
    method: Seq<char>,
    url: Seq<char>,
    m2: Seq<char>,
    u2: Seq<char>,
)
    requires
        forall|j: int| 0 <= j < routes.len() ==> !route_key_is(routes, j, method, url),
    ensures
        routed(routes.push((method, url, q)), method, url) == q,
        !(m2 == method && u2 == url) ==> routed(routes.push((method, url, q)), m2, u2) == routed(
            routes,
            m2,
            u2,
        ),
{
    let after = routes.push((method, url, q));
    lemma_same_keys_push(routes, (method, url, q));
    assert(is_first_route(after, routes.len() as int, method, url));
    lemma_routed_at(after, routes.len() as int, method, url);
    if !(m2 == method && u2 == url) {
        if exists|j: int| is_first_route(routes, j, m2, u2) {
            let j = choose|j: int| is_first_route(routes, j, m2, u2);
            assert(is_first_route(after, j, m2, u2));
            lemma_routed_at(routes, j, m2, u2);
            lemma_routed_at(after, j, m2, u2);
        } else {
            if exists|j: int| is_first_route(after, j, m2, u2) {
                let j = choose|j: int| is_first_route(after, j, m2, u2);
                assert(j != routes.len());
                assert(is_first_route(routes, j, m2, u2));
            }
        }
    }
}

/// An immutable copy of the engine's counters and phase.
#[derive(Clone, Debug)]
pub struct MockRestStateSnapshot {
    pub state: RestTransportState,
    pub request_count: usize,
    pub last_url: Option<String>,
    pub last_status: Option<u16>,
    pub behavior_remaining: usize,
    pub response_queue_len: usize,
    pub route_queue_len: usize,
    pub inbound_count: usize,
    pub outbound_count: usize,
    pub elapsed_total: Duration,
    pub last_error: Option<String>,
}

/// The in-memory transport: scripted behaviors, route-aware response queues, and a
/// record of every call.
pub struct MockRestAdapter {
    state: RestTransportState,
    request_count: usize,
    last_url: Option<String>,
    last_status: Option<u16>,
    behavior_plan: MockBehaviorPlan,
    default_response_queue: VecDeque<MockResponse>,
    route_response_queues: Vec<MockRoute>,
    outbound_log: Vec<RestRequest>,
    inbound_log: Vec<RestResponse>,
    last_error: Option<String>,
    elapsed_total: Duration,
}

/// The sum of the queue lengths of all routes.
pub open spec fn total_routed(routes: Seq<(Seq<char>, Seq<char>, Seq<MockResponse>)>) -> nat
    decreases routes.len(),
{
    if routes.len() == 0 {
        0
    } else {
        total_routed(routes.drop_last()) + routes.last().2.len()
    }
}

/// std's monotonic instant, used to measure how long a call took.
#[verifier::external_type_specification]
#[verifier::external_body]
pub struct ExInstant(std::time::Instant);

/// Relies on `Instant::now`: the current instant; nothing is known of its value.
pub assume_specification[ std::time::Instant::now ]() -> std::time::Instant;

/// Relies on `Instant::elapsed`: the time since the instant; nothing is known of its value.
pub assume_specification[ std::time::Instant::elapsed ](i: &std::time::Instant) -> Duration;

/// The sum of two spans, held at the largest span instead of overflowing.
pub uninterp spec fn duration_sum(a: Duration, b: Duration) -> Duration;

/// Relies on `Duration::saturating_add`: a sum that stops at the largest duration instead
/// of panicking, the same for the same spans.
pub assume_specification[ core::time::Duration::saturating_add ](a: Duration, b: Duration) -> (r:
    Duration)
    ensures
        r == duration_sum(a, b),
;

/// Behaviors that end the call in a failure.
pub open spec fn fails(b: MockBehavior) -> bool {
    !(b is Pass || b is Delay || b is Replay)
}

/// The failure that a failing behavior is reported as.
pub open spec fn failure_of(b: MockBehavior, e: RestError) -> bool {
    match b {
        MockBehavior::Drop => e matches RestError::Timeout { status, retryable, message }
            && status is None && !retryable && message@ == "transport dropped response"@,
        MockBehavior::ConnectError { status, reason, retryable } => e == (RestError::MockTransport {
            kind: RestErrorKind::Connect,
            status,
            retryable,
            message: reason,
        }),
        MockBehavior::SendError { status, reason, retryable } => e == (RestError::MockTransport {
            kind: RestErrorKind::Send,
            status,
            retryable,
            message: reason,
        }),
        MockBehavior::ReceiveError { status, reason, retryable } => e == (RestError::MockTransport {
            kind: RestErrorKind::Receive,
            status,
            retryable,
            message: reason,
        }),
        MockBehavior::TimeoutError { status, reason, retryable } => e == (RestError::Timeout {
            status,
            retryable,
            message: reason,
        }),
        MockBehavior::InternalError { reason } => e == (RestError::Internal { message: reason }),
        MockBehavior::Reject { status, reason } => e == (RestError::Rejected {
            status,
            reason,
            retryable: true,
        }),
        _ => false,
    }
}

/// The message a failure records as the engine's last error.
pub open spec fn failure_message(e: RestError) -> Seq<char> {
    match e {
        RestError::Timeout { message, .. } => message@,
        RestError::Rejected { reason, .. } => reason@,
        RestError::Internal { message } => message@,
        RestError::MockTransport { message, .. } => message@,
        _ => Seq::empty(),
    }
}

/// The default queue once the behavior has run: a replay appends its frames.
pub open spec fn queue_after(b: MockBehavior, q: Seq<MockResponse>) -> Seq<MockResponse> {
    match b {
        MockBehavior::Replay(frames) => q + frames@,
        _ => q,
    }
}

/// `resp` carries the status, headers and body of the canned response `m`.
pub open spec fn answers_with(resp: RestResponse, m: MockResponse) -> bool {
    &&& resp.status == m.status
    &&& resp.headers == m.headers
    &&& resp.body == m.body
}

/// The response served when no queue holds one: 200 with no headers and an empty body.
pub open spec fn is_fallback(resp: RestResponse) -> bool {
    &&& resp.status == 200
    &&& resp.headers@.len() == 0
    &&& resp.body@.len() == 0
}

/// Where a served call takes its response from, and what that does to the queues: the
/// route queue of the request's method and URL first, then the default queue (after a
/// replay has appended to it), then the fallback.
pub open spec fn serves_from_queues(
    before: MockRestAdapter,
    after: MockRestAdapter,
    b: MockBehavior,
    method: Seq<char>,
    url: Seq<char>,
    r: RestResult<RestResponse>,
) -> bool {
    let pending = queue_after(b, before.default_queue());
    let q = routed(before.routes(), method, url);
    &&& r is Ok
    &&& if q.len() > 0 {
        &&& answers_with(r->Ok_0, q[0])
        &&& after.default_queue() == pending
        &&& exists|i: int|
            is_first_route(before.routes(), i, method, url) && after.routes()
                == before.routes().update(i, (method, url, q.drop_first()))
    } else if pending.len() > 0 {
        &&& answers_with(r->Ok_0, pending[0])
        &&& after.default_queue() == pending.drop_first()
        &&& after.routes() == before.routes()
    } else {
        &&& is_fallback(r->Ok_0)
        &&& after.default_queue() == pending
        &&& after.routes() == before.routes()
    }
}

/// The behavior drawn for a call from plan `before`, leaving plan `after`: a queued
/// behavior (or `Pass`), overridden by the next scenario step when there is one.
pub open spec fn draws(before: MockBehaviorPlan, after: MockBehaviorPlan, b: MockBehavior) -> bool {
    let queued = before.behaviors();
    let steps = before.steps();
    &&& after.behaviors() == if queued.len() > 0 {
        queued.drop_first()
    } else {
        queued
    }
    &&& after.steps() == if steps.len() > 0 {
        steps.drop_first()
    } else {
        steps
    }
    &&& if queued.len() > 0 {
        if steps.len() > 0 {
            overrides(steps[0], queued[0], b)
        } else {
            b == queued[0]
        }
    } else {
        if steps.len() > 0 {
            overrides(steps[0], MockBehavior::Pass, b)
        } else {
            b is Pass
        }
    }
}

/// What one call with behavior `b` does to the engine and returns.
pub open spec fn responds(
    before: MockRestAdapter,
    after: MockRestAdapter,
    b: MockBehavior,
    request: RestRequest,
    r: RestResult<RestResponse>,
) -> bool {
    &&& after.requests() == if before.requests() < usize::MAX {
        (before.requests() + 1) as usize
    } else {
        before.requests()
    }
    &&& after.outbound() == before.outbound().push(after.outbound().last())
    &&& copies_request(after.outbound().last(), request)
    &&& after.last_url_view() == Some(request.url@)
    &&& if fails(b) {
        &&& r is Err
        &&& failure_of(b, r->Err_0)
        &&& after.phase() == RestTransportState::Error
        &&& after.last_status_view() == r->Err_0.status_spec()
        &&& after.last_error_view() == Some(failure_message(r->Err_0))
        &&& after.default_queue() == before.default_queue()
        &&& after.routes() == before.routes()
        &&& after.inbound() == before.inbound()
        &&& after.elapsed() == before.elapsed()
    } else {
        &&& serves_from_queues(before, after, b, request.method@, request.url@, r)
        &&& after.phase() == RestTransportState::Idle
        &&& after.last_status_view() == Some(r->Ok_0.status)
        &&& after.last_error_view() is None
        &&& after.inbound() == before.inbound().push(after.inbound().last())
        &&& copies_response(after.inbound().last(), r->Ok_0)
        &&& after.elapsed() == duration_sum(before.elapsed(), r->Ok_0.elapsed)
    }
}

/// A copy of a response, field by field.
fn copy_response(resp: &RestResponse) -> (r: RestResponse)
    ensures
        copies_response(r, *resp),
{
    RestResponse {
        status: resp.status,
        headers: copy_headers(&resp.headers),
        body: copy_bytes(&resp.body),
        elapsed: resp.elapsed,
    }
}

impl MockRestAdapter {
    pub closed spec fn phase(&self) -> RestTransportState {
        self.state
    }

    pub closed spec fn requests(&self) -> usize {
        self.request_count
    }

    pub closed spec fn last_url_view(&self) -> Option<Seq<char>> {
        match self.last_url {
            Some(u) => Some(u@),
            None => None,
        }
    }

    pub closed spec fn last_status_view(&self) -> Option<u16> {
        self.last_status
    }

    pub closed spec fn last_error_view(&self) -> Option<Seq<char>> {
        match self.last_error {
            Some(m) => Some(m@),
            None => None,
        }
    }

    pub closed spec fn plan(&self) -> MockBehaviorPlan {
        self.behavior_plan
    }

    pub closed spec fn default_queue(&self) -> Seq<MockResponse> {
        self.default_response_queue@
    }

    pub closed spec fn routes(&self) -> Seq<(Seq<char>, Seq<char>, Seq<MockResponse>)> {
        self.route_response_queues@.map_values(
            |r: MockRoute| (r.method@, r.url@, r.responses@),
        )
    }

    pub closed spec fn outbound(&self) -> Seq<RestRequest> {
        self.outbound_log@
    }

    pub closed spec fn inbound(&self) -> Seq<RestResponse> {
        self.inbound_log@
    }

    pub closed spec fn elapsed(&self) -> Duration {
        self.elapsed_total
    }

    /// A fresh engine with nothing queued and nothing recorded.
    pub open spec fn is_fresh(&self) -> bool {
        &&& self.phase() == RestTransportState::Idle
        &&& self.requests() == 0
        &&& self.last_url_view() is None
        &&& self.last_status_view() is None
        &&& self.last_error_view() is None
        &&& self.default_queue().len() == 0
        &&& self.routes().len() == 0
        &&& self.outbound().len() == 0
        &&& self.inbound().len() == 0
        &&& self.elapsed() == millis_duration(0)
    }

    pub fn new() -> (r: MockRestAdapter)
        ensures
            r.is_fresh(),
            r.plan().behaviors().len() == 0,
            r.plan().steps().len() == 0,
    {
        MockRestAdapter::with_behavior_plan(MockBehaviorPlan::new())
    }

    pub fn with_behavior_plan(behavior_plan: MockBehaviorPlan) -> (r: MockRestAdapter)
        ensures
            r.is_fresh(),
            r.plan() == behavior_plan,
    {
        let r = MockRestAdapter {
            state: RestTransportState::Idle,
            request_count: 0,
            last_url: None,
            last_status: None,
            behavior_plan,
            default_response_queue: VecDeque::new(),
            route_response_queues: Vec::new(),
            outbound_log: Vec::new(),
            inbound_log: Vec::new(),
            last_error: None,
            elapsed_total: Duration::from_millis(0),
        };
        assert(r.routes() =~= Seq::empty());
        r
    }

    pub fn from_scenario(scenario: MockScenario) -> (r: MockRestAdapter)
        ensures
            r.is_fresh(),
            r.plan().steps() == scenario.steps(),
            r.plan().behaviors().len() == scenario.steps().len(),
            forall|i: int|
                0 <= i < scenario.steps().len() ==> step_behavior(
                    #[trigger] scenario.steps()[i],
                    r.plan().behaviors()[i],
                ),
    {
        MockRestAdapter::with_behavior_plan(MockBehaviorPlan::scenario(scenario))
    }

    /// Queues a response that any route may take.
    pub fn queue_response(&mut self, response: MockResponse)
        ensures
            final(self).default_queue() == old(self).default_queue().push(response),
            final(self).routes() == old(self).routes(),
            final(self).plan() == old(self).plan(),
            final(self).requests() == old(self).requests(),
    {
        self.default_response_queue.push_back(response);
    }

    /// Position of the first route keyed by this method and URL.
    fn find_route(&self, method: &String, url: &String) -> (r: Option<usize>)
        ensures
            r matches Some(i) ==> i < self.routes().len() && route_key_is(self.routes(), i as int, method@, url@)
                && forall|j: int| 0 <= j < i ==> !route_key_is(self.routes(), j, method@, url@),
            r is None ==> forall|j: int|
                0 <= j < self.routes().len() ==> !route_key_is(self.routes(), j, method@, url@),
    {
        let mut i: usize = 0;
        while i < self.route_response_queues.len()
            invariant
                i <= self.routes().len(),
                self.routes().len() == self.route_response_queues@.len(),
                forall|j: int| 0 <= j < i ==> !route_key_is(self.routes(), j, method@, url@),
            decreases self.route_response_queues@.len() - i,
        {
            let route = &self.route_response_queues[i];
            assert(self.routes()[i as int] == (route.method@, route.url@, route.responses@));
            if route.method == *method && route.url == *url {
                return Some(i);
            }
            i = i + 1;
        }
        None
    }

    /// Queues a response for one (method, URL) pair.
    pub fn queue_response_for(&mut self, method: &str, url: &str, response: MockResponse)
        ensures
            routed(final(self).routes(), method@, url@) == routed(old(self).routes(), method@, url@).push(response),
            forall|m: Seq<char>, u: Seq<char>|
                !(m == method@ && u == url@) ==> #[trigger] routed(final(self).routes(), m, u) == routed(
                    old(self).routes(),
                    m,
                    u,
                ),
            final(self).default_queue() == old(self).default_queue(),
            final(self).plan() == old(self).plan(),
            final(self).requests() == old(self).requests(),
    {
        let ghost before = self.routes();
        let method_key = method.to_owned();
        let url_key = url.to_owned();
        match self.find_route(&method_key, &url_key) {
            Some(i) => {
                let mut route = self.route_response_queues.remove(i);
                let ghost old_q = route.responses@;
                route.responses.push_back(response);
                self.route_response_queues.insert(i, route);
                proof {
                    let q = old_q.push(response);
                    assert(self.routes() =~= before.update(i as int, (method@, url@, q)));
                    assert(is_first_route(before, i as int, method@, url@));
                    lemma_same_keys_update(before, i as int, q, method@, url@);
                    assert(is_first_route(self.routes(), i as int, method@, url@));
                    lemma_routed_at(before, i as int, method@, url@);
                    lemma_routed_at(self.routes(), i as int, method@, url@);
                    assert forall|m: Seq<char>, u: Seq<char>|
                        !(m == method@ && u == url@) implies #[trigger] routed(self.routes(), m, u)
                        == routed(before, m, u) by {
                        lemma_routed_other_keys(before, i as int, q, method@, url@, m, u);
                    }
                }
            },
            None => {
                let mut responses: VecDeque<MockResponse> = VecDeque::new();
                responses.push_back(response);
                let route = MockRoute { method: method_key, url: url_key, responses };
                self.route_response_queues.push(route);
                proof {
                    assert(self.routes() =~= before.push((method@, url@, seq![response])));
                    lemma_routed_absent(before, method@, url@);
                    lemma_routed_appended(before, seq![response], method@, url@, method@, url@);
                    assert(seq![response] =~= Seq::<MockResponse>::empty().push(response));
                    assert forall|m: Seq<char>, u: Seq<char>|
                        !(m == method@ && u == url@) implies #[trigger] routed(self.routes(), m, u)
                        == routed(before, m, u) by {
                        lemma_routed_appended(before, seq![response], method@, url@, m, u);
                    }
                }
            },
        }
    }

    pub fn queue_post_response(&mut self, url: &str, response: MockResponse)
        ensures
            routed(final(self).routes(), "POST"@, url@) == routed(old(self).routes(), "POST"@, url@).push(response),
            forall|m: Seq<char>, u: Seq<char>|
                !(m == "POST"@ && u == url@) ==> #[trigger] routed(final(self).routes(), m, u) == routed(
                    old(self).routes(),
                    m,
                    u,
                ),
            final(self).default_queue() == old(self).default_queue(),
            final(self).plan() == old(self).plan(),
    {
        self.queue_response_for("POST", url, response);
    }

    pub fn queue_get_response(&mut self, url: &str, response: MockResponse)
        ensures
            routed(final(self).routes(), "GET"@, url@) == routed(old(self).routes(), "GET"@, url@).push(response),
            forall|m: Seq<char>, u: Seq<char>|
                !(m == "GET"@ && u == url@) ==> #[trigger] routed(final(self).routes(), m, u) == routed(
                    old(self).routes(),
                    m,
                    u,
                ),
            final(self).default_queue() == old(self).default_queue(),
            final(self).plan() == old(self).plan(),
    {
        self.queue_response_for("GET", url, response);
    }

    /// Queues an error status with a raw body for GET on `url`.
    pub fn queue_error_response(&mut self, url: &str, status: u16, body: Vec<u8>)
        ensures
            routed(final(self).routes(), "GET"@, url@).len() == routed(old(self).routes(), "GET"@, url@).len() + 1,
            routed(final(self).routes(), "GET"@, url@).drop_last() == routed(old(self).routes(), "GET"@, url@),
            routed(final(self).routes(), "GET"@, url@).last().status == status,
            routed(final(self).routes(), "GET"@, url@).last().body == body,
            final(self).default_queue() == old(self).default_queue(),
            final(self).plan() == old(self).plan(),
    {
        self.queue_error_response_for("GET", url, status, body);
    }

    /// Queues an error status with a raw body for one (method, URL) pair.
    pub fn queue_error_response_for(&mut self, method: &str, url: &str, status: u16, body: Vec<u8>)
        ensures
            routed(final(self).routes(), method@, url@).len() == routed(old(self).routes(), method@, url@).len() + 1,
            routed(final(self).routes(), method@, url@).drop_last() == routed(old(self).routes(), method@, url@),
            routed(final(self).routes(), method@, url@).last().status == status,
            routed(final(self).routes(), method@, url@).last().body == body,
            final(self).default_queue() == old(self).default_queue(),
            final(self).plan() == old(self).plan(),
    {
        let ghost before = routed(self.routes(), method@, url@);
        self.queue_response_for(method, url, MockResponse::new(status, body));
        assert(routed(self.routes(), method@, url@).drop_last() =~= before);
    }

    /// Queues an error status with a text body for GET on `url`.
    pub fn queue_error_text(&mut self, url: &str, status: u16, message: &str)
        ensures
            routed(final(self).routes(), "GET"@, url@).len() == routed(old(self).routes(), "GET"@, url@).len() + 1,
            routed(final(self).routes(), "GET"@, url@).drop_last() == routed(old(self).routes(), "GET"@, url@),
            routed(final(self).routes(), "GET"@, url@).last().status == status,
            routed(final(self).routes(), "GET"@, url@).last().body@ == message.spec_bytes(),
            final(self).default_queue() == old(self).default_queue(),
            final(self).plan() == old(self).plan(),
    {
        self.queue_error_response(url, status, text_bytes(message));
    }

    pub fn outbound_count(&self) -> (r: usize)
        ensures
            r == self.outbound().len(),
    {
        self.outbound_log.len()
    }

    pub fn inbound_count(&self) -> (r: usize)
        ensures
            r == self.inbound().len(),
    {
        self.inbound_log.len()
    }

    /// Empties both logs; counters, queues and the plan stay.
    pub fn clear_logs(&mut self)
        ensures
            final(self).outbound().len() == 0,
            final(self).inbound().len() == 0,
            final(self).requests() == old(self).requests(),
            final(self).phase() == old(self).phase(),
            final(self).default_queue() == old(self).default_queue(),
            final(self).routes() == old(self).routes(),
            final(self).plan() == old(self).plan(),
    {
        self.outbound_log.clear();
        self.inbound_log.clear();
    }

    /// An immutable copy of the engine's phase, counters and queue lengths.
    pub fn snapshot(&self) -> (r: MockRestStateSnapshot)
        ensures
            r.state == self.phase(),
            r.request_count == self.requests(),
            (match r.last_url {
                Some(u) => Some(u@),
                None => None,
            }) == self.last_url_view(),
            r.last_status == self.last_status_view(),
            r.behavior_remaining == self.plan().behaviors().len(),
            r.response_queue_len == self.default_queue().len(),
            r.route_queue_len == if total_routed(self.routes()) <= usize::MAX {
                total_routed(self.routes())
            } else {
                usize::MAX as nat
            },
            r.inbound_count == self.inbound().len(),
            r.outbound_count == self.outbound().len(),
            r.elapsed_total == self.elapsed(),
            (match r.last_error {
                Some(m) => Some(m@),
                None => None,
            }) == self.last_error_view(),
    {
        let mut total: usize = 0;
        let mut i: usize = 0;
        while i < self.route_response_queues.len()
            invariant
                i <= self.routes().len(),
                self.routes().len() == self.route_response_queues@.len(),
                total as nat == if total_routed(self.routes().take(i as int)) <= usize::MAX {
                    total_routed(self.routes().take(i as int))
                } else {
                    usize::MAX as nat
                },
            decreases self.route_response_queues@.len() - i,
        {
            let len = self.route_response_queues[i].responses.len();
            proof {
                assert(self.routes().take(i + 1).drop_last() =~= self.routes().take(i as int));
                assert(self.routes().take(i + 1).last() == self.routes()[i as int]);
            }
            if total > usize::MAX - len {
                total = usize::MAX;
            } else {
                total = total + len;
            }
            i = i + 1;
        }
        assert(self.routes().take(i as int) =~= self.routes());
        MockRestStateSnapshot {
            state: self.state,
            request_count: self.request_count,
            last_url: match &self.last_url {
                Some(u) => Some(u.clone()),
                None => None,
            },
            last_status: self.last_status,
            behavior_remaining: self.behavior_plan.request.len(),
            response_queue_len: self.default_response_queue.len(),
            route_queue_len: total,
            inbound_count: self.inbound_log.len(),
            outbound_count: self.outbound_log.len(),
            elapsed_total: self.elapsed_total,
            last_error: match &self.last_error {
                Some(m) => Some(m.clone()),
                None => None,
            },
        }
    }

    /// Draws the behavior for the next call.
    pub fn pop_behavior(&mut self, operation: MockOperation) -> (r: MockBehavior)
        ensures
            draws(old(self).plan(), final(self).plan(), r),
            final(self).phase() == old(self).phase(),
            final(self).last_url_view() == old(self).last_url_view(),
            final(self).last_status_view() == old(self).last_status_view(),
            final(self).last_error_view() == old(self).last_error_view(),
            final(self).elapsed() == old(self).elapsed(),
            final(self).default_queue() == old(self).default_queue(),
            final(self).routes() == old(self).routes(),
            final(self).requests() == old(self).requests(),
            final(self).outbound() == old(self).outbound(),
            final(self).inbound() == old(self).inbound(),
    {
        let behavior = self.behavior_plan.pop(operation);
        let step = self.behavior_plan.pop_step();
        match step {
            Some(step) => match step.kind {
                MockScenarioStepKind::Drop => MockBehavior::Drop,
                MockScenarioStepKind::Delay => match step.delay {
                    Some(d) => MockBehavior::Delay(d),
                    None => behavior,
                },
                MockScenarioStepKind::Reject => {
                    let status = match step.status {
                        Some(s) => s,
                        None => 500u16,
                    };
                    let reason = match step.message {
                        Some(m) => m,
                        None => "rejected".to_owned(),
                    };
                    proof {
                        reveal_strlit("rejected");
                    }
                    MockBehavior::Reject { status, reason }
                },
                _ => behavior,
            },
            None => behavior,
        }
    }

    /// Takes the next response for a request: from its route queue, else from the
    /// default queue.
    fn next_default_response(&mut self, request: &RestRequest) -> (r: Option<MockResponse>)
        ensures
            ({
                let q = routed(old(self).routes(), request.method@, request.url@);
                let d = old(self).default_queue();
                if q.len() > 0 {
                    &&& r == Some(q[0])
                    &&& final(self).default_queue() == d
                    &&& exists|i: int|
                        is_first_route(old(self).routes(), i, request.method@, request.url@)
                            && final(self).routes() == old(self).routes().update(
                            i,
                            (request.method@, request.url@, q.drop_first()),
                        )
                } else if d.len() > 0 {
                    &&& r == Some(d[0])
                    &&& final(self).default_queue() == d.drop_first()
                    &&& final(self).routes() == old(self).routes()
                } else {
                    &&& r is None
                    &&& final(self).default_queue() == d
                    &&& final(self).routes() == old(self).routes()
                }
            }),
            final(self).plan() == old(self).plan(),
            final(self).requests() == old(self).requests(),
            final(self).outbound() == old(self).outbound(),
            final(self).inbound() == old(self).inbound(),
            final(self).phase() == old(self).phase(),
            final(self).last_url_view() == old(self).last_url_view(),
            final(self).last_status_view() == old(self).last_status_view(),
            final(self).last_error_view() == old(self).last_error_view(),
            final(self).elapsed() == old(self).elapsed(),
    {
        let ghost before = self.routes();
        let ghost method = request.method;
        let ghost url = request.url;
        match self.find_route(&request.method, &request.url) {
            Some(i) => {
                proof {
                    lemma_routed_at(before, i as int, method@, url@);
                }
                if self.route_response_queues[i].responses.len() > 0 {
                    let mut route = self.route_response_queues.remove(i);
                    let ghost old_q = route.responses@;
                    let front = route.responses.pop_front();
                    self.route_response_queues.insert(i, route);
                    proof {
                        assert(self.routes() =~= before.update(
                            i as int,
                            (method@, url@, old_q.drop_first()),
                        ));
                    }
                    return front;
                }
            },
            None => {
                proof {
                    lemma_routed_absent(before, method@, url@);
                }
            },
        }
        self.default_response_queue.pop_front()
    }

    /// Records a failure of kind `kind` and builds its error.
    fn record_failure(
        &mut self,
        kind: RestErrorKind,
        status: Option<u16>,
        message: String,
        retryable: bool,
    ) -> (r: RestError)
        ensures
            kind == RestErrorKind::Timeout ==> r == (RestError::Timeout { status, retryable, message }),
            kind == RestErrorKind::Rejected ==> r == (RestError::Rejected {
                status: match status {
                    Some(s) => s,
                    None => 500u16,
                },
                reason: message,
                retryable,
            }),
            (kind == RestErrorKind::MockTransport || kind == RestErrorKind::Connect || kind
                == RestErrorKind::Send || kind == RestErrorKind::Receive) ==> r
                == (RestError::MockTransport { kind, status, retryable, message }),
            kind == RestErrorKind::Internal ==> r == (RestError::Internal { message }),
            kind == RestErrorKind::Parse ==> r is Internal && r->Internal_message@
                == "mock parse error: "@ + message@,
            final(self).phase() == RestTransportState::Error,
            final(self).last_error_view() == Some(message@),
            final(self).last_status_view() == status,
            final(self).requests() == old(self).requests(),
            final(self).last_url_view() == old(self).last_url_view(),
            final(self).plan() == old(self).plan(),
            final(self).default_queue() == old(self).default_queue(),
            final(self).routes() == old(self).routes(),
            final(self).outbound() == old(self).outbound(),
            final(self).inbound() == old(self).inbound(),
            final(self).elapsed() == old(self).elapsed(),
    {
        let recorded = message.clone();
        let error = match kind {
            RestErrorKind::Timeout => RestError::Timeout { status, retryable, message },
            RestErrorKind::Rejected => RestError::Rejected {
                status: match status {
                    Some(s) => s,
                    None => 500u16,
                },
                reason: message,
                retryable,
            },
            RestErrorKind::MockTransport => RestError::MockTransport {
                kind: RestErrorKind::MockTransport,
                status,
                retryable,
                message,
            },
            RestErrorKind::Connect => RestError::MockTransport {
                kind: RestErrorKind::Connect,
                status,
                retryable,
                message,
            },
            RestErrorKind::Send => RestError::MockTransport {
                kind: RestErrorKind::Send,
                status,
                retryable,
                message,
            },
            RestErrorKind::Receive => RestError::MockTransport {
                kind: RestErrorKind::Receive,
                status,
                retryable,
                message,
            },
            RestErrorKind::Internal => RestError::Internal { message },
            RestErrorKind::Parse => {
                let mut text = String::from_str("mock parse error: ");
                text.append(message.as_str());
                proof {
                    reveal_strlit("mock parse error: ");
                }
                RestError::Internal { message: text }
            },
        };
        self.state = RestTransportState::Error;
        self.last_error = Some(recorded);
        self.last_status = status;
        error
    }

    /// Serves a response from the queues, or the fallback, and records it.
    fn serve(&mut self, request: &RestRequest, start: &std::time::Instant) -> (r: RestResponse)
        ensures
            serves_from_queues(*old(self), *final(self), MockBehavior::Pass, request.method@, request.url@, Ok::<RestResponse, RestError>(r)),
            final(self).phase() == RestTransportState::Idle,
            final(self).last_status_view() == Some(r.status),
            final(self).last_error_view() == old(self).last_error_view(),
            final(self).inbound() == old(self).inbound().push(final(self).inbound().last()),
            copies_response(final(self).inbound().last(), r),
            final(self).elapsed() == duration_sum(old(self).elapsed(), r.elapsed),
            final(self).plan() == old(self).plan(),
            final(self).requests() == old(self).requests(),
            final(self).outbound() == old(self).outbound(),
            final(self).last_url_view() == old(self).last_url_view(),
    {
        match self.next_default_response(request) {
            Some(canned) => {
                let elapsed = start.elapsed();
                let response = RestResponse {
                    status: canned.status,
                    headers: canned.headers,
                    body: canned.body,
                    elapsed,
                };
                self.inbound_log.push(copy_response(&response));
                self.last_status = Some(response.status);
                self.state = RestTransportState::Idle;
                self.elapsed_total = self.elapsed_total.saturating_add(elapsed);
                response
            },
            None => {
                let elapsed = start.elapsed();
                let fallback = RestResponse { status: 200, headers: Vec::new(), body: Vec::new(), elapsed };
                self.inbound_log.push(copy_response(&fallback));
                self.last_status = Some(200);
                self.state = RestTransportState::Idle;
                self.elapsed_total = self.elapsed_total.saturating_add(elapsed);
                fallback
            },
        }
    }

    /// Appends replayed frames to the default queue.
    fn extend_default(&mut self, frames: Vec<MockResponse>)
        ensures
            final(self).default_queue() == old(self).default_queue() + frames@,
            final(self).routes() == old(self).routes(),
            final(self).plan() == old(self).plan(),
            final(self).requests() == old(self).requests(),
            final(self).outbound() == old(self).outbound(),
            final(self).inbound() == old(self).inbound(),
            final(self).phase() == old(self).phase(),
            final(self).last_url_view() == old(self).last_url_view(),
            final(self).last_status_view() == old(self).last_status_view(),
            final(self).last_error_view() == old(self).last_error_view(),
            final(self).elapsed() == old(self).elapsed(),
    {
        let ghost start = self.default_response_queue@;
        assert(start == old(self).default_response_queue@);
        let mut rest = frames;
        let ghost all = rest@;
        assert(start + all =~= self.default_response_queue@ + rest@);
        while rest.len() > 0
            invariant
                start + all == self.default_response_queue@ + rest@,
                self.default_response_queue@.len() >= start.len(),
                self.route_response_queues == old(self).route_response_queues,
                self.behavior_plan == old(self).behavior_plan,
                self.request_count == old(self).request_count,
                self.outbound_log == old(self).outbound_log,
                self.inbound_log == old(self).inbound_log,
                self.state == old(self).state,
                self.last_url == old(self).last_url,
                self.last_status == old(self).last_status,
                self.last_error == old(self).last_error,
                self.elapsed_total == old(self).elapsed_total,
            decreases rest@.len(),
        {
            let frame = rest.remove(0);
            self.default_response_queue.push_back(frame);
            assert(start + all =~= self.default_response_queue@ + rest@);
        }
        assert(self.default_response_queue@ =~= start + all);
    }

    /// Runs a call with a behavior already drawn: records the request, then fails as the
    /// behavior says or serves a response, and records the outcome.
    pub fn respond(&mut self, behavior: MockBehavior, request: &RestRequest) -> (r: RestResult<
        RestResponse,
    >)
        ensures
            responds(*old(self), *final(self), behavior, *request, r),
            final(self).plan() == old(self).plan(),
    {
        let start = std::time::Instant::now();
        self.outbound_log.push(request.duplicate());
        if self.request_count < usize::MAX {
            self.request_count = self.request_count + 1;
        }
        self.last_url = Some(request.url.clone());
        self.state = RestTransportState::Busy;
        self.last_error = None;
        let result = match behavior {
            MockBehavior::Drop => {
                let message = "transport dropped response".to_owned();
                proof {
                    reveal_strlit("transport dropped response");
                }
                Err(self.record_failure(RestErrorKind::Timeout, None, message, false))
            },
            MockBehavior::ConnectError { status, reason, retryable } => Err(
                self.record_failure(RestErrorKind::Connect, status, reason, retryable),
            ),
            MockBehavior::SendError { status, reason, retryable } => Err(
                self.record_failure(RestErrorKind::Send, status, reason, retryable),
            ),
            MockBehavior::ReceiveError { status, reason, retryable } => Err(
                self.record_failure(RestErrorKind::Receive, status, reason, retryable),
            ),
            MockBehavior::TimeoutError { status, reason, retryable } => Err(
                self.record_failure(RestErrorKind::Timeout, status, reason, retryable),
            ),
            MockBehavior::InternalError { reason } => Err(
                self.record_failure(RestErrorKind::Internal, None, reason, false),
            ),
            MockBehavior::Reject { status, reason } => Err(
                self.record_failure(RestErrorKind::Rejected, Some(status), reason, true),
            ),
            MockBehavior::Replay(frames) => {
                self.extend_default(frames);
                Ok(self.serve(request, &start))
            },
            _ => Ok(self.serve(request, &start)),
        };
        result
    }

    /// One call: draws a behavior, then runs it.
    pub fn simulate(&mut self, request: &RestRequest) -> (r: RestResult<RestResponse>)
        ensures
            exists|b: MockBehavior|
                draws(old(self).plan(), final(self).plan(), b) && #[trigger] responds(
                    *old(self),
                    *final(self),
                    b,
                    *request,
                    r,
                ),
    {
        let ghost before = *self;
        let behavior = self.pop_behavior(MockOperation::Request);
        let ghost b = behavior;
        let r = self.respond(behavior, request);
        assert(responds(before, *self, b, *request, r));
        r
    }
}

impl Default for MockRestAdapter {
    fn default() -> (r: MockRestAdapter)
        ensures
            r.is_fresh(),
            r.plan().behaviors().len() == 0,
            r.plan().steps().len() == 0,
    {
        MockRestAdapter::new()
    }
}

impl RestTransport for MockRestAdapter {
    /// One call: a behavior drawn from the plan, then run.
    open spec fn step(
        before: MockRestAdapter,
        after: MockRestAdapter,
        request: RestRequest,
        r: RestResult<RestResponse>,
    ) -> bool {
        exists|b: MockBehavior|
            draws(before.plan(), after.plan(), b) && #[trigger] responds(before, after, b, request, r)
    }

    fn execute(&mut self, request: &RestRequest) -> (r: RestResult<RestResponse>) {
        self.simulate(request)
    }
}

} // verus!
