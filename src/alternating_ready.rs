//! A service whose readiness alternates between pending and ready on successive checks.

use crate::service::{granted, Service};
use std::convert::Infallible;
use std::task::{Context, Poll};
use vstd::prelude::*;

verus! {

/// A request to the [AlternatingReadyService].
#[derive(Debug, Clone, Copy, PartialEq, Eq)]
pub struct AlternatingReadyRequest;

/// A response from the [AlternatingReadyService].
#[derive(Debug, Clone, Copy, PartialEq, Eq)]
pub struct AlternatingReadyResponse;

/// A service whose readiness checks alternate between `Pending` and `Ready`, starting with
/// `Pending`; a call must follow a check that returned `Ready`.
///
/// Two flags make its state. `ready` decides the next check: while it is set, the next check
/// clears it and returns `Pending`; while it is clear, the next check sets it and returns
/// `Ready(Ok(()))`. `authorized` says whether a call is allowed: only a check that returned
/// `Ready(Ok(()))` sets it, and any other check or a call clears it.
#[derive(Debug, Clone)]
pub struct AlternatingReadyService {
    ready: bool,
    authorized: bool,
}

impl AlternatingReadyService {
    /// The next readiness check returns `Pending`.
    pub closed spec fn next_check_pends(&self) -> bool {
        self.ready
    }

    /// A call is allowed: the last operation was a check that returned `Ready(Ok(()))`.
    pub closed spec fn holds_grant(&self) -> bool {
        self.authorized
    }

    /// A fresh service: no call is allowed, and its first readiness check returns `Pending`.
    pub fn new() -> (r: Self)
        ensures
            r.next_check_pends(),
            !r.holds_grant(),
    {
        AlternatingReadyService { ready: true, authorized: false }
    }
}

impl Default for AlternatingReadyService {
    fn default() -> (r: Self)
        ensures
            r.next_check_pends(),
            !r.holds_grant(),
    {
        Self::new()
    }
}

/// The outcome of a readiness check that does not grant a call.
pub open spec fn pending() -> Poll<Result<(), Infallible>> {
    Poll::<Result<(), Infallible>>::Pending
}

impl Service<AlternatingReadyRequest> for AlternatingReadyService {
    type Response = AlternatingReadyResponse;

    /// This service never fails.
    type Error = Infallible;

    open spec fn is_ready(&self) -> bool {
        self.holds_grant()
    }

    open spec fn polled(pre: Self, post: Self, r: Poll<Result<(), Infallible>>) -> bool {
        if pre.next_check_pends() {
            r == pending() && !post.next_check_pends() && !post.holds_grant()
        } else {
            granted(r) && post.next_check_pends() && post.holds_grant()
        }
    }

    open spec fn called(
        pre: Self,
        req: AlternatingReadyRequest,
        post: Self,
        r: Result<AlternatingReadyResponse, Infallible>,
    ) -> bool {
        !post.next_check_pends() && !post.holds_grant() && r == Ok::<AlternatingReadyResponse, Infallible>(AlternatingReadyResponse)
    }

    /// Alternately returns `Pending`, after asking the task's waker for another poll, and
    /// `Ready(Ok(()))`.
    fn poll_ready(&mut self, cx: &mut Context<'_>) -> (r: Poll<Result<(), Infallible>>) {
        if self.ready {
            cx.waker().wake_by_ref();
            self.ready = false;
            self.authorized = false;
            Poll::Pending
        } else {
            self.ready = true;
            self.authorized = true;
            Poll::Ready(Ok(()))
        }
    }

    /// Authorized right after a check that returned `Ready(Ok(()))`, and only then.
    fn is_authorized(&self) -> (r: bool) {
        self.authorized
    }

    /// Answers with an [AlternatingReadyResponse] and uses up the authorization.
    fn call(&mut self, _req: AlternatingReadyRequest) -> (r: Result<
        AlternatingReadyResponse,
        Infallible,
    >) {
        self.ready = false;
        self.authorized = false;
        Ok(AlternatingReadyResponse)
    }
}

} // verus!

verus! {

/// Whether the next check of a fresh service pends after `i` readiness checks, given the
/// results and the states in between.
proof fn lemma_flag_after(
    states: Seq<AlternatingReadyService>,
    results: Seq<Poll<Result<(), Infallible>>>,
    i: int,
)
    requires
        states.len() == results.len() + 1,
        states[0].next_check_pends(),
        forall|j: int|
            0 <= j < results.len() ==> #[trigger] <AlternatingReadyService as Service<
                AlternatingReadyRequest,
            >>::polled(states[j], states[j + 1], results[j]),
        0 <= i <= results.len(),
    ensures
        states[i].next_check_pends() == (i % 2 == 0),
    decreases i,
{
    if i > 0 {
        let j = i - 1;
        lemma_flag_after(states, results, j);
        assert(<AlternatingReadyService as Service<AlternatingReadyRequest>>::polled(
            states[j],
            states[j + 1],
            results[j],
        ));
    }
}

/// Readiness alternates: from a fresh service, the check numbered `i` (counting from zero)
/// returns `Pending` when `i` is even and `Ready(Ok(()))` when `i` is odd, however many
/// checks are made. `states[i]` is the service before check `i`, `results[i]` what it returned.
pub proof fn lemma_readiness_alternates(
    states: Seq<AlternatingReadyService>,
    results: Seq<Poll<Result<(), Infallible>>>,
)
    requires
        states.len() == results.len() + 1,
        states[0].next_check_pends(),
        forall|j: int|
            0 <= j < results.len() ==> #[trigger] <AlternatingReadyService as Service<
                AlternatingReadyRequest,
            >>::polled(states[j], states[j + 1], results[j]),
    ensures
        forall|i: int|
            0 <= i < results.len() ==> #[trigger] results[i] == if i % 2 == 0 {
                pending()
            } else {
                Poll::<Result<(), Infallible>>::Ready(Ok(()))
            },
{
    assert forall|i: int| 0 <= i < results.len() implies #[trigger] results[i] == if i % 2 == 0 {
        pending()
    } else {
        Poll::<Result<(), Infallible>>::Ready(Ok(()))
    } by {
        lemma_flag_after(states, results, i);
        assert(<AlternatingReadyService as Service<AlternatingReadyRequest>>::polled(
            states[i],
            states[i + 1],
            results[i],
        ));
    }
}

/// A check that returned `Pending` leaves no call authorized: a call right after it breaks
/// the precondition of `call`, whatever the request.
pub proof fn lemma_no_call_after_pending(pre: AlternatingReadyService, post: AlternatingReadyService)
    requires
        <AlternatingReadyService as Service<AlternatingReadyRequest>>::polled(pre, post, pending()),
    ensures
        !<AlternatingReadyService as Service<AlternatingReadyRequest>>::is_ready(&post),
{
}

/// A check that returned `Ready(Ok(()))` authorizes exactly one call: that call is allowed
/// and succeeds, and a second call right after it breaks the precondition of `call`.
pub proof fn lemma_one_call_per_grant(
    pre: AlternatingReadyService,
    mid: AlternatingReadyService,
    req: AlternatingReadyRequest,
    post: AlternatingReadyService,
    r: Result<AlternatingReadyResponse, Infallible>,
)
    requires
        <AlternatingReadyService as Service<AlternatingReadyRequest>>::polled(
            pre,
            mid,
            Poll::Ready(Ok(())),
        ),
        <AlternatingReadyService as Service<AlternatingReadyRequest>>::called(mid, req, post, r),
    ensures
        <AlternatingReadyService as Service<AlternatingReadyRequest>>::is_ready(&mid),
        r == Ok::<AlternatingReadyResponse, Infallible>(AlternatingReadyResponse),
        !<AlternatingReadyService as Service<AlternatingReadyRequest>>::is_ready(&post),
{
}

/// A call is allowed exactly when the last operation was a check that returned
/// `Ready(Ok(()))`: after a check, a call is allowed exactly when that check granted one, and
/// after a call none is. A fresh service allows none (see [AlternatingReadyService::new]).
pub proof fn lemma_authorized_only_by_grant(
    pre: AlternatingReadyService,
    post: AlternatingReadyService,
    r: Poll<Result<(), Infallible>>,
    req: AlternatingReadyRequest,
    after_call: AlternatingReadyService,
    res: Result<AlternatingReadyResponse, Infallible>,
)
    ensures
        <AlternatingReadyService as Service<AlternatingReadyRequest>>::polled(pre, post, r) ==> (
        <AlternatingReadyService as Service<AlternatingReadyRequest>>::is_ready(&post)
            == granted(r)),
        <AlternatingReadyService as Service<AlternatingReadyRequest>>::called(
            pre,
            req,
            after_call,
            res,
        ) ==> !<AlternatingReadyService as Service<AlternatingReadyRequest>>::is_ready(
            &after_call,
        ),
{
}

} // verus!
