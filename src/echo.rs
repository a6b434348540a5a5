//! A service that is always ready and answers each request with its own text.

use crate::service::{granted, Service};
use std::convert::Infallible;
use std::task::{Context, Poll};
use vstd::prelude::*;

verus! {

/// A request to the [EchoService]: a piece of text.
#[derive(Debug, Clone, PartialEq, Eq)]
pub struct EchoRequest(pub String);

/// A response from the [EchoService]: a piece of text.
#[derive(Debug, Clone, PartialEq, Eq)]
pub struct EchoResponse(pub String);

impl View for EchoRequest {
    type V = Seq<char>;

    open spec fn view(&self) -> Seq<char> {
        self.0@
    }
}

impl View for EchoResponse {
    type V = Seq<char>;

    open spec fn view(&self) -> Seq<char> {
        self.0@
    }
}

impl From<String> for EchoRequest {
    fn from(text: String) -> (r: Self)
        ensures
            r.0 == text,
    {
        EchoRequest(text)
    }
}

impl vstd::std_specs::convert::FromSpecImpl<String> for EchoRequest {
    open spec fn obeys_from_spec() -> bool {
        true
    }

    open spec fn from_spec(text: String) -> Self {
        EchoRequest(text)
    }
}

impl EchoRequest {
    /// The text of the request.
    pub fn to_text(&self) -> (r: String)
        ensures
            r@ == self@,
    {
        self.0.clone()
    }
}

impl EchoResponse {
    /// The text of the response.
    pub fn to_text(&self) -> (r: String)
        ensures
            r@ == self@,
    {
        self.0.clone()
    }
}

/// Echo service: always ready, and answers a request with a response of the same text.
#[derive(Debug, Clone, Copy)]
pub struct EchoService;

impl Service<EchoRequest> for EchoService {
    type Response = EchoResponse;

    /// This service never fails.
    type Error = Infallible;

    open spec fn is_ready(&self) -> bool {
        true
    }

    open spec fn polled(pre: Self, post: Self, r: Poll<Result<(), Infallible>>) -> bool {
        post == pre && granted(r)
    }

    open spec fn called(
        pre: Self,
        req: EchoRequest,
        post: Self,
        r: Result<EchoResponse, Infallible>,
    ) -> bool {
        post == pre && r == Ok::<EchoResponse, Infallible>(EchoResponse(req.0))
    }

    /// Always ready.
    fn poll_ready(&mut self, _cx: &mut Context<'_>) -> (r: Poll<Result<(), Infallible>>) {
        Poll::Ready(Ok(()))
    }

    /// Always authorized.
    fn is_authorized(&self) -> (r: bool) {
        true
    }

    /// Answers with a response that holds the request's text.
    fn call(&mut self, req: EchoRequest) -> (r: Result<EchoResponse, Infallible>) {
        Ok(EchoResponse(req.0))
    }
}

} // verus!
