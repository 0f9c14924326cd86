use vstd::prelude::*;

use crate::client::Attempt;
use crate::mock::{MockBehavior, MockBehaviorPlan, MockRestAdapter};
use crate::model::{RestRequest, RestResponse, RestRetryPolicy};
use crate::error::RestResult;

verus! {

/// Without a retry policy, checked execution calls the transport exactly once, whatever
/// the status of the answer.
pub proof fn lemma_one_call_without_policy(run: Seq<Attempt>)
    requires
        crate::client::is_checked_run(None, run),
    ensures
        run.len() == 1,
{
    if run.len() > 1 {
        assert(crate::client::continues(None, run[0], 0));
    }
}

/// With policy {statuses, max}, when the transport answers `max` times with a non-2xx
/// status of the policy and then with a 2xx status, checked execution makes exactly
/// `max + 1` calls and ends on that 2xx answer.
pub proof fn lemma_retries_until_success(
    policy: RestRetryPolicy,
    answers: Seq<Attempt>,
    run: Seq<Attempt>,
)
    requires
        answers.len() == policy.max_retries + 1,
        forall|i: int|
            0 <= i < policy.max_retries ==> (#[trigger] answers[i] matches Attempt::Answered {
                status,
                ..
            } && policy.statuses@.contains(status) && !crate::model::is_success_status(status)),
        answers.last() matches Attempt::Answered { status, .. } && crate::model::is_success_status(
            status,
        ),
        run.len() <= answers.len(),
        run == answers.take(run.len() as int),
        crate::client::is_checked_run(Some(policy), run),
    ensures
        run.len() == policy.max_retries + 1,
        run.last() matches Attempt::Answered { status, .. } && crate::model::is_success_status(
            status,
        ),
{
    lemma_run_reaches(policy, answers, run);
    assert(run =~= answers);
}

/// With policy {statuses, max}, when all `max + 1` answers are non-2xx statuses of the
/// policy, checked execution makes exactly `max + 1` calls and ends on a non-2xx answer,
/// which it reports as a rejection.
pub proof fn lemma_retries_exhausted(
    policy: RestRetryPolicy,
    answers: Seq<Attempt>,
    run: Seq<Attempt>,
)
    requires
        answers.len() == policy.max_retries + 1,
        forall|i: int|
            0 <= i < answers.len() ==> (#[trigger] answers[i] matches Attempt::Answered {
                status,
                ..
            } && policy.statuses@.contains(status) && !crate::model::is_success_status(status)),
        run.len() <= answers.len(),
        run == answers.take(run.len() as int),
        crate::client::is_checked_run(Some(policy), run),
    ensures
        run.len() == policy.max_retries + 1,
        run.last() matches Attempt::Answered { status, .. } && !crate::model::is_success_status(
            status,
        ),
{
    lemma_run_reaches(policy, answers, run);
    assert(run =~= answers);
    assert(answers[answers.len() - 1] == answers.last());
}

/// A run over answers whose first `max` are retried statuses cannot stop before the last.
proof fn lemma_run_reaches(policy: RestRetryPolicy, answers: Seq<Attempt>, run: Seq<Attempt>)
    requires
        answers.len() == policy.max_retries + 1,
        forall|i: int|
            0 <= i < policy.max_retries ==> (#[trigger] answers[i] matches Attempt::Answered {
                status,
                ..
            } && policy.statuses@.contains(status) && !crate::model::is_success_status(status)),
        run.len() <= answers.len(),
        run == answers.take(run.len() as int),
        crate::client::is_checked_run(Some(policy), run),
    ensures
        run.len() == answers.len(),
{
    if run.len() < answers.len() {
        let k = run.len() - 1;
        assert(run[k] == answers[k]);
        assert(0 <= k < policy.max_retries);
        assert(crate::client::continues(Some(policy), run.last(), k));
    }
}

/// A transport failure, a timeout among them, ends checked execution at once: it is never
/// retried, whatever statuses the policy enrolls.
pub proof fn lemma_failure_not_retried(policy: Option<RestRetryPolicy>, run: Seq<Attempt>)
    requires
        crate::client::is_checked_run(policy, run),
        run[0] is Failed,
    ensures
        run.len() == 1,
{
    if run.len() > 1 {
        assert(crate::client::continues(policy, run[0], 0));
    }
}

/// A policy with no retry statuses behaves as no policy at all.
pub proof fn lemma_empty_statuses_as_no_policy(policy: RestRetryPolicy, run: Seq<Attempt>)
    requires
        policy.statuses@.len() == 0,
    ensures
        crate::client::is_checked_run(Some(policy), run) == crate::client::is_checked_run(
            None,
            run,
        ),
{
    assert forall|a: Attempt, i: int|
        crate::client::continues(Some(policy), a, i) == crate::client::continues(None, a, i) by {
        if let Attempt::Answered { status, .. } = a {
            assert(!policy.statuses@.contains(status));
        }
    }
}

/// An engine with nothing scripted and nothing queued answers with the fallback: status
/// 200, no headers, an empty body.
pub proof fn lemma_empty_engine_falls_back(
    plan_before: MockBehaviorPlan,
    plan_after: MockBehaviorPlan,
    b: MockBehavior,
    before: MockRestAdapter,
    after: MockRestAdapter,
    request: RestRequest,
    r: RestResult<RestResponse>,
)
    requires
        plan_before.behaviors().len() == 0,
        plan_before.steps().len() == 0,
        crate::mock::draws(plan_before, plan_after, b),
        before.default_queue().len() == 0,
        crate::mock::routed(before.routes(), request.method@, request.url@).len() == 0,
        crate::mock::responds(before, after, b, request, r),
    ensures
        r is Ok,
        crate::mock::is_fallback(r->Ok_0),
{
}

/// A call that is served takes the front of its route queue when that holds a response,
/// and leaves the rest of that queue for later calls on the same route.
pub proof fn lemma_route_queue_first(
    before: MockRestAdapter,
    after: MockRestAdapter,
    b: MockBehavior,
    request: RestRequest,
    r: RestResult<RestResponse>,
)
    requires
        !crate::mock::fails(b),
        crate::mock::responds(before, after, b, request, r),
        crate::mock::routed(before.routes(), request.method@, request.url@).len() > 0,
    ensures
        r is Ok,
        crate::mock::answers_with(
            r->Ok_0,
            crate::mock::routed(before.routes(), request.method@, request.url@)[0],
        ),
        crate::mock::routed(after.routes(), request.method@, request.url@) == crate::mock::routed(
            before.routes(),
            request.method@,
            request.url@,
        ).drop_first(),
        after.default_queue() == crate::mock::queue_after(b, before.default_queue()),
{
    let m = request.method@;
    let u = request.url@;
    let q = crate::mock::routed(before.routes(), m, u);
    let i = choose|i: int|
        crate::mock::is_first_route(before.routes(), i, m, u) && after.routes()
            == before.routes().update(i, (m, u, q.drop_first()));
    crate::mock::lemma_first_route_after_update(before.routes(), i, q.drop_first(), m, u);
}

/// A call on a route whose queue is empty takes the front of the default queue, and the
/// fallback once that is empty too.
pub proof fn lemma_route_exhausted_falls_back(
    before: MockRestAdapter,
    after: MockRestAdapter,
    b: MockBehavior,
    request: RestRequest,
    r: RestResult<RestResponse>,
)
    requires
        !crate::mock::fails(b),
        crate::mock::responds(before, after, b, request, r),
        crate::mock::routed(before.routes(), request.method@, request.url@).len() == 0,
    ensures
        r is Ok,
        crate::mock::queue_after(b, before.default_queue()).len() > 0 ==> crate::mock::answers_with(
            r->Ok_0,
            crate::mock::queue_after(b, before.default_queue())[0],
        ),
        crate::mock::queue_after(b, before.default_queue()).len() == 0 ==> crate::mock::is_fallback(
            r->Ok_0,
        ),
        after.routes() == before.routes(),
{
}

} // verus!
