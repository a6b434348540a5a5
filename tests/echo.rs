use futures::task::noop_waker_ref;
use std::task::{Context, Poll};
use tower_experiments::echo::{EchoRequest, EchoResponse, EchoService};
use tower_experiments::service::{poll_oneshot, OneshotStep, Service};

#[test]
fn echo_test_poll_ready() {
    let result = EchoService.poll_ready(&mut Context::from_waker(noop_waker_ref()));
    assert!(result.is_ready());
    if let Poll::Ready(result) = result {
        assert!(result.is_ok());
    }
}

#[test]
fn test_call() {
    let response = EchoService.call("Tower".to_string().into());
    assert!(response.is_ok());
    let response = response.unwrap();
    assert_eq!(response, EchoResponse("Tower".to_string()));
}

#[test]
fn echo_hello_scenario() {
    let mut service = EchoService;
    let response = service.call(EchoRequest::from("Hello".to_string())).unwrap();
    assert_eq!(response, EchoResponse("Hello".to_string()));
    assert_eq!(response.to_text(), "Hello");
}

#[test]
fn echo_empty_request() {
    let response = EchoService.call(EchoRequest(String::new())).unwrap();
    assert_eq!(response, EchoResponse(String::new()));
}

#[test]
fn echo_always_ready_and_authorized() {
    let mut service = EchoService;
    let mut cx = Context::from_waker(noop_waker_ref());
    for _ in 0..5 {
        assert!(matches!(service.poll_ready(&mut cx), Poll::Ready(Ok(()))));
        assert!(service.is_authorized());
    }
}

#[test]
fn echo_several_calls_without_checks() {
    let mut service = EchoService;
    let first = service.call(EchoRequest("Hello, Tower!".to_string())).unwrap();
    let second = service.call(EchoRequest("Hello again, Tower!".to_string())).unwrap();
    assert_eq!(first.to_text(), "Hello, Tower!");
    assert_eq!(second.to_text(), "Hello again, Tower!");
}

#[test]
fn echo_request_text() {
    let request = EchoRequest::from("ünïcode text".to_string());
    assert_eq!(request.to_text(), "ünïcode text");
}

#[test]
fn echo_oneshot_answers_at_once() {
    let mut service = EchoService;
    let mut cx = Context::from_waker(noop_waker_ref());
    let step = poll_oneshot(&mut service, &mut cx, EchoRequest("Hello, Tower!".to_string()));
    assert_eq!(
        step,
        OneshotStep::Done(Ok(EchoResponse("Hello, Tower!".to_string())))
    );
}
