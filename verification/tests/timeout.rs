use session_auth::timeout::{
    timeout_step, Polled, Timeout, TimeoutAction, TimeoutError, TimeoutEvent, TimeoutFailure,
};
use std::time::Duration;

#[test]
fn new_timeout_keeps_service_and_limit() {
    let mut t = Timeout::new(7u32, Duration::from_millis(250));
    assert_eq!(t.timeout(), Duration::from_millis(250));
    assert_eq!(*t.get_mut(), 7);
    *t.get_mut() = 9;
    assert_eq!(*t.get_mut(), 9);
    assert_eq!(t.timeout(), Duration::from_millis(250));
}

#[test]
fn timeout_error_message() {
    assert_eq!(TimeoutError::default().to_string(), "request timed out");
}

#[test]
fn ready_response_is_returned() {
    let a = timeout_step::<u32, String>(TimeoutEvent::ResponsePolled(Polled::Ready(Ok(5))));
    assert!(matches!(a, TimeoutAction::Finish(Ok(5))));
}

#[test]
fn failed_response_is_the_service_error() {
    let a = timeout_step::<u32, String>(TimeoutEvent::ResponsePolled(Polled::Ready(Err(
        "boom".to_string(),
    ))));
    match a {
        TimeoutAction::Finish(Err(TimeoutFailure::Inner(e))) => assert_eq!(e, "boom"),
        _ => panic!("expected the service error"),
    }
}

#[test]
fn pending_response_polls_timer() {
    let a = timeout_step::<u32, String>(TimeoutEvent::ResponsePolled(Polled::Pending));
    assert!(matches!(a, TimeoutAction::PollTimer));
}

#[test]
fn elapsed_timer_fails_request() {
    let a = timeout_step::<u32, String>(TimeoutEvent::TimerPolled(Polled::Ready(())));
    match a {
        TimeoutAction::Finish(Err(TimeoutFailure::Elapsed(e))) => {
            assert_eq!(e.to_string(), "request timed out")
        }
        _ => panic!("expected a timeout"),
    }
}

#[test]
fn pending_timer_waits() {
    let a = timeout_step::<u32, String>(TimeoutEvent::TimerPolled(Polled::Pending));
    assert!(matches!(a, TimeoutAction::Wait));
}

#[test]
fn cloned_timeout_keeps_limit() {
    let t = Timeout::new(String::from("svc"), Duration::new(3, 500));
    let mut c = t.clone();
    assert_eq!(c.timeout(), Duration::new(3, 500));
    assert_eq!(c.get_mut().as_str(), "svc");
}
