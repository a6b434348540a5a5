//! The service interface: a readiness check that may grant one call, and the call itself.

use std::task::{Context, Poll, Waker};
use vstd::prelude::*;

verus! {

/// The outcome of a readiness check, as std's task machinery spells it.
#[verifier::external_type_specification]
#[verifier::reject_recursive_types(T)]
pub struct ExPoll<T>(Poll<T>);

/// The task context handed to a readiness check; it carries the task's waker.
#[verifier::external_type_specification]
#[verifier::external_body]
pub struct ExContext<'a>(Context<'a>);

/// The handle through which a suspended task asks to be polled again.
#[verifier::external_type_specification]
#[verifier::external_body]
pub struct ExWaker(Waker);

/// Relies on `Context::waker`, which hands out the waker of the task being polled.
pub assume_specification<'a>[ Context::<'a>::waker ](cx: &Context<'a>) -> &'a Waker;

/// Relies on `Waker::wake_by_ref`, which schedules the task to be polled again.
pub assume_specification[ Waker::wake_by_ref ](w: &Waker);

/// A readiness check that grants one call.
pub open spec fn granted<E>(r: Poll<Result<(), E>>) -> bool {
    r == Poll::<Result<(), E>>::Ready(Ok(()))
}

/// A request/response service whose calls are authorized by readiness checks.
///
/// `is_ready` says whether the service currently holds an authorization for one call.
/// `polled` and `called` relate the state before and after a readiness check or a call,
/// and what the check or the call returned.
pub trait Service<Req>: Sized {
    type Response;

    type Error;

    /// The service holds an authorization for exactly one call.
    spec fn is_ready(&self) -> bool;

    /// A readiness check on `pre` may leave the service as `post` and return `r`.
    spec fn polled(pre: Self, post: Self, r: Poll<Result<(), Self::Error>>) -> bool;

    /// A call of `req` on `pre` may leave the service as `post` and return `r`.
    spec fn called(
        pre: Self,
        req: Req,
        post: Self,
        r: Result<Self::Response, Self::Error>,
    ) -> bool;

    /// Checks whether the service can take a call; a check that returns `Ready(Ok(()))`
    /// authorizes one call.
    fn poll_ready(&mut self, cx: &mut Context<'_>) -> (r: Poll<Result<(), Self::Error>>)
        ensures
            Self::polled(*old(self), *final(self), r),
            granted(r) ==> final(self).is_ready(),
    ;

    /// Whether a call is authorized now.
    fn is_authorized(&self) -> (r: bool)
        ensures
            r == self.is_ready(),
    ;

    /// Handles one request, using up the authorization of the last readiness check.
    fn call(&mut self, req: Req) -> (r: Result<Self::Response, Self::Error>)
        requires
            old(self).is_ready(),
        ensures
            Self::called(*old(self), req, *final(self), r),
    ;
}

/// What one step of driving a single call came to.
#[derive(Debug, PartialEq, Eq)]
pub enum OneshotStep<R, T, E> {
    /// The service was not ready; the request is handed back for a later step.
    Waiting(R),
    /// The readiness check failed with this error; no call was made.
    Refused(E),
    /// The readiness check granted a call, and the call returned this result.
    Done(Result<T, E>),
}

/// One step of driving a single request through a service: one readiness check and, when it
/// grants a call, exactly one call. On `Waiting` the caller is to step again when its task is
/// woken.
pub fn poll_oneshot<R, S: Service<R>>(service: &mut S, cx: &mut Context<'_>, req: R) -> (r:
    OneshotStep<R, S::Response, S::Error>)
    ensures
        match r {
            OneshotStep::Waiting(q) => q == req && S::polled(
                *old(service),
                *final(service),
                Poll::Pending,
            ),
            OneshotStep::Refused(e) => S::polled(
                *old(service),
                *final(service),
                Poll::Ready(Err(e)),
            ),
            OneshotStep::Done(res) => exists|mid: S|
                #![trigger S::polled(*old(service), mid, Poll::Ready(Ok(())))]
                S::polled(*old(service), mid, Poll::Ready(Ok(()))) && mid.is_ready() && S::called(
                    mid,
                    req,
                    *final(service),
                    res,
                ),
        },
{
    let checked = service.poll_ready(cx);
    match checked {
        Poll::Pending => OneshotStep::Waiting(req),
        Poll::Ready(Err(e)) => OneshotStep::Refused(e),
        Poll::Ready(Ok(_grant)) => {
            let ghost mid = *service;
            assert(checked == Poll::<Result<(), S::Error>>::Ready(Ok(_grant)));
            assert(granted(checked));
            let res = service.call(req);
            assert(S::polled(*old(service), mid, Poll::Ready(Ok(()))));
            OneshotStep::Done(res)
        },
    }
}

} // verus!
