use futures::task::noop_waker_ref;
use std::task::{Context, Poll};
use tower_experiments::alternating_ready::{
    AlternatingReadyRequest, AlternatingReadyResponse, AlternatingReadyService,
};
use tower_experiments::service::{poll_oneshot, OneshotStep, Service};

#[test]
fn alternating_ready_test_poll_ready() {
    let mut service = AlternatingReadyService::new();

    let result = service.poll_ready(&mut Context::from_waker(noop_waker_ref()));
    assert!(result.is_pending());

    let result = service.poll_ready(&mut Context::from_waker(noop_waker_ref()));
    assert!(result.is_ready());
}

#[test]
fn alternating_sequence_of_checks() {
    let mut service = AlternatingReadyService::new();
    let mut cx = Context::from_waker(noop_waker_ref());
    for i in 0..10 {
        let result = service.poll_ready(&mut cx);
        if i % 2 == 0 {
            assert!(result.is_pending());
        } else {
            assert!(matches!(result, Poll::Ready(Ok(()))));
        }
    }
}

#[test]
fn alternating_default_starts_pending() {
    let mut service = AlternatingReadyService::default();
    let result = service.poll_ready(&mut Context::from_waker(noop_waker_ref()));
    assert!(result.is_pending());
}

#[test]
fn alternating_no_authorization_after_pending() {
    let mut service = AlternatingReadyService::new();
    let result = service.poll_ready(&mut Context::from_waker(noop_waker_ref()));
    assert!(result.is_pending());
    assert!(!service.is_authorized());
}

#[test]
fn alternating_one_call_per_grant() {
    let mut service = AlternatingReadyService::new();
    let mut cx = Context::from_waker(noop_waker_ref());
    assert!(service.poll_ready(&mut cx).is_pending());
    assert!(matches!(service.poll_ready(&mut cx), Poll::Ready(Ok(()))));
    assert!(service.is_authorized());
    let response = service.call(AlternatingReadyRequest);
    assert_eq!(response, Ok(AlternatingReadyResponse));
    assert!(!service.is_authorized());
}

#[test]
fn alternating_check_after_call_is_ready() {
    let mut service = AlternatingReadyService::new();
    let mut cx = Context::from_waker(noop_waker_ref());
    assert!(service.poll_ready(&mut cx).is_pending());
    assert!(service.poll_ready(&mut cx).is_ready());
    assert!(service.call(AlternatingReadyRequest).is_ok());
    assert!(matches!(service.poll_ready(&mut cx), Poll::Ready(Ok(()))));
    assert!(service.is_authorized());
}

#[test]
fn alternating_oneshot_waits_then_calls() {
    let mut service = AlternatingReadyService::new();
    let mut cx = Context::from_waker(noop_waker_ref());
    let step = poll_oneshot(&mut service, &mut cx, AlternatingReadyRequest);
    assert_eq!(step, OneshotStep::Waiting(AlternatingReadyRequest));
    let step = poll_oneshot(&mut service, &mut cx, AlternatingReadyRequest);
    assert_eq!(step, OneshotStep::Done(Ok(AlternatingReadyResponse)));
    assert!(!service.is_authorized());
}

#[test]
fn alternating_fresh_service_not_authorized() {
    let mut service = AlternatingReadyService::new();
    assert!(!service.is_authorized());
    assert!(!AlternatingReadyService::default().is_authorized());
    let mut cx = Context::from_waker(noop_waker_ref());
    assert!(service.poll_ready(&mut cx).is_pending());
    assert!(!service.is_authorized());
    assert!(matches!(service.poll_ready(&mut cx), Poll::Ready(Ok(()))));
    assert!(service.is_authorized());
}
