//! A decorator that records each request it forwards and each result that comes back.

use crate::echo::{EchoRequest, EchoResponse, EchoService};
use crate::service::Service;
use std::convert::Infallible;
use std::fmt::Debug;
use std::task::{Context, Poll};
use vstd::prelude::*;

verus! {

/// One entry of a [LogService]'s record, holding the debug text of a value.
#[derive(Debug, Clone, PartialEq, Eq)]
pub enum LogRecord {
    /// A request was handed on to the wrapped service.
    Called(String),
    /// The wrapped service answered with a result.
    Responded(String),
}

/// Relies on the `Debug` impl of `T`, through `format!`, for the debug text of a value.
#[verifier::external_body]
fn debug_text<T: Debug>(v: &T) -> String {
    format!("{v:?}")
}

/// Log layer: wraps a service in a [LogService].
#[derive(Debug, Clone, Copy)]
pub struct LogLayer;

impl LogLayer {
    /// Wraps `inner` in a [LogService] with an empty record.
    pub fn layer<S>(&self, inner: S) -> (r: LogService<S>)
        ensures
            r.inner_service() == inner,
            r.records() == Seq::<LogRecord>::empty(),
    {
        LogService { inner, log: Vec::new() }
    }
}

/// Log service: forwards readiness checks and calls to the service it wraps, and records,
/// for each call, the request before it is handed on and the result after it came back.
#[derive(Debug, Clone)]
pub struct LogService<S> {
    inner: S,
    log: Vec<LogRecord>,
}

impl<S> LogService<S> {
    /// The wrapped service.
    pub closed spec fn inner_service(&self) -> S {
        self.inner
    }

    /// The records not yet taken, oldest first.
    pub closed spec fn records(&self) -> Seq<LogRecord> {
        self.log@
    }

    /// Hands out the records not yet taken, oldest first, and empties the record.
    pub fn take_log(&mut self) -> (r: Vec<LogRecord>)
        ensures
            r@ == old(self).records(),
            final(self).records() == Seq::<LogRecord>::empty(),
            final(self).inner_service() == old(self).inner_service(),
    {
        let mut taken: Vec<LogRecord> = Vec::new();
        std::mem::swap(&mut taken, &mut self.log);
        taken
    }
}

/// `post` holds the records of `pre` followed by one call record and then one response record.
pub open spec fn logged_one_call(pre: Seq<LogRecord>, post: Seq<LogRecord>) -> bool {
    &&& post.len() == pre.len() + 2
    &&& post.subrange(0, pre.len() as int) == pre
    &&& post[pre.len() as int] is Called
    &&& post[pre.len() + 1int] is Responded
}

impl<R: Debug, S: Service<R>> Service<R> for LogService<S> where
    S::Response: Debug,
    S::Error: Debug,
 {
    /// Same response type as the wrapped service.
    type Response = S::Response;

    /// Same error type as the wrapped service.
    type Error = S::Error;

    open spec fn is_ready(&self) -> bool {
        self.inner_service().is_ready()
    }

    open spec fn polled(pre: Self, post: Self, r: Poll<Result<(), S::Error>>) -> bool {
        S::polled(pre.inner_service(), post.inner_service(), r) && post.records()
            == pre.records()
    }

    open spec fn called(pre: Self, req: R, post: Self, r: Result<S::Response, S::Error>) -> bool {
        S::called(pre.inner_service(), req, post.inner_service(), r) && logged_one_call(
            pre.records(),
            post.records(),
        )
    }

    /// Forwards the check to the wrapped service.
    fn poll_ready(&mut self, cx: &mut Context<'_>) -> (r: Poll<Result<(), S::Error>>) {
        self.inner.poll_ready(cx)
    }

    /// Authorized exactly when the wrapped service is.
    fn is_authorized(&self) -> (r: bool) {
        self.inner.is_authorized()
    }

    /// Records the request, forwards it, records the result and hands it back unchanged.
    fn call(&mut self, req: R) -> (r: Result<S::Response, S::Error>) {
        let ghost before = self.log@;
        let request_text = debug_text(&req);
        self.log.push(LogRecord::Called(request_text));
        let r = self.inner.call(req);
        let result_text = debug_text(&r);
        self.log.push(LogRecord::Responded(result_text));
        assert(self.log@.subrange(0, before.len() as int) =~= before);
        r
    }
}

} // verus!

verus! {

/// A call through the decorator hands back exactly what the wrapped service returned for the
/// same request, success or error, and adds to the record one entry for the request followed
/// by one for the result.
pub proof fn lemma_log_forwards_result<R: Debug, S: Service<R>>(
    pre: LogService<S>,
    req: R,
    post: LogService<S>,
    r: Result<S::Response, S::Error>,
) where S::Response: Debug, S::Error: Debug
    requires
        <LogService<S> as Service<R>>::called(pre, req, post, r),
    ensures
        S::called(pre.inner_service(), req, post.inner_service(), r),
        post.records().len() == pre.records().len() + 2,
        post.records().subrange(0, pre.records().len() as int) == pre.records(),
        post.records()[pre.records().len() as int] is Called,
        post.records()[pre.records().len() + 1int] is Responded,
{
}

/// Wrapped around an [EchoService], the decorator answers a request exactly as the echo service
/// alone answers it, and records the request and then the response.
pub proof fn lemma_logged_echo(
    pre: LogService<EchoService>,
    req: EchoRequest,
    post: LogService<EchoService>,
    r: Result<EchoResponse, Infallible>,
    plain_post: EchoService,
    plain_r: Result<EchoResponse, Infallible>,
)
    requires
        <LogService<EchoService> as Service<EchoRequest>>::called(pre, req, post, r),
        <EchoService as Service<EchoRequest>>::called(
            pre.inner_service(),
            req,
            plain_post,
            plain_r,
        ),
    ensures
        r == plain_r,
        r == Ok::<EchoResponse, Infallible>(EchoResponse(req.0)),
        logged_one_call(pre.records(), post.records()),
{
}

} // verus!
