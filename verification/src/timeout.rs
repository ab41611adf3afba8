//! A service wrapper that fails a request whose response does not come within
//! a time limit, and the decision that each poll of its response makes.
use vstd::prelude::*;
use std::time::Duration;

verus! {

/// `Clone::clone` on `std::time::Duration`, a `Copy` type: the same length
/// of time.
pub assume_specification[ <std::time::Duration as Clone>::clone ](d: &Duration) -> (r: Duration)
    ensures
        r == *d,
;

/// A service with a time limit on each of its responses.
#[derive(Debug, Clone)]
pub struct Timeout<S> {
    inner: S,
    timeout: Duration,
}

impl<S> Timeout<S> {
    /// The wrapped service.
    pub closed spec fn service(&self) -> S {
        self.inner
    }

    /// The time limit on each response.
    pub closed spec fn limit(&self) -> Duration {
        self.timeout
    }

    /// Wraps `inner`, limiting each of its responses to `timeout`.
    pub fn new(inner: S, timeout: Duration) -> (t: Self)
        ensures
            t.service() == inner,
            t.limit() == timeout,
    {
        Timeout { inner, timeout }
    }

    /// The wrapped service, to be polled or called.
    pub fn get_mut(&mut self) -> (r: &mut S)
        ensures
            *r == old(self).service(),
            final(self).service() == *final(r),
            final(self).limit() == old(self).limit(),
    {
        &mut self.inner
    }

    /// The time limit on each response.
    pub fn timeout(&self) -> (d: Duration)
        ensures
            d == self.limit(),
    {
        self.timeout
    }
}

/// The error of a request whose response did not come in time.
#[derive(Debug, Default, Clone, Copy)]
pub struct TimeoutError(());

impl TimeoutError {
    /// The message of the error: "request timed out".
    pub fn to_string(&self) -> (s: String)
        ensures
            s@ == "request timed out"@,
    {
        "request timed out".to_owned()
    }
}

/// The state of a polled future: done with a value, or not yet.
#[derive(Debug)]
pub enum Polled<T> {
    Ready(T),
    Pending,
}

/// Why a request through a `Timeout` failed: the wrapped service failed, or
/// the time limit passed first.
#[derive(Debug)]
pub enum TimeoutFailure<E> {
    Inner(E),
    Elapsed(TimeoutError),
}

/// What a poll of a `Timeout`'s response has found out, one event at a time:
/// the wrapped response was polled, or the timer was.
pub enum TimeoutEvent<R, E> {
    ResponsePolled(Polled<Result<R, E>>),
    TimerPolled(Polled<()>),
}

/// What the poll does next: finish with a result, poll the timer, or report
/// that nothing is ready yet.
pub enum TimeoutAction<R, E> {
    Finish(Result<R, TimeoutFailure<E>>),
    PollTimer,
    Wait,
}

/// One decision of a poll of a `Timeout`'s response. The wrapped response is
/// polled first, and its result, once ready, is given back as it is, its
/// error marked as the service's own, whatever the timer shows; only while
/// it is pending is the timer polled, and a timer that has run out fails the
/// request with a `TimeoutError`.
pub fn timeout_step<R, E>(event: TimeoutEvent<R, E>) -> (action: TimeoutAction<R, E>)
    ensures
        event matches TimeoutEvent::ResponsePolled(Polled::Ready(Ok(v))) ==> action
            == TimeoutAction::<R, E>::Finish(Ok(v)),
        event matches TimeoutEvent::ResponsePolled(Polled::Ready(Err(e))) ==> action
            == TimeoutAction::<R, E>::Finish(Err(TimeoutFailure::Inner(e))),
        event matches TimeoutEvent::ResponsePolled(Polled::Pending) ==> action
            == TimeoutAction::<R, E>::PollTimer,
        event matches TimeoutEvent::TimerPolled(Polled::Ready(_)) ==> action matches TimeoutAction::Finish(
            Err(TimeoutFailure::Elapsed(_)),
        ),
        event matches TimeoutEvent::TimerPolled(Polled::Pending) ==> action
            == TimeoutAction::<R, E>::Wait,
{
    match event {
        TimeoutEvent::ResponsePolled(Polled::Ready(result)) => match result {
            Ok(v) => TimeoutAction::Finish(Ok(v)),
            Err(e) => TimeoutAction::Finish(Err(TimeoutFailure::Inner(e))),
        },
        TimeoutEvent::ResponsePolled(Polled::Pending) => TimeoutAction::PollTimer,
        TimeoutEvent::TimerPolled(Polled::Ready(_)) => TimeoutAction::Finish(
            Err(TimeoutFailure::Elapsed(TimeoutError(()))),
        ),
        TimeoutEvent::TimerPolled(Polled::Pending) => TimeoutAction::Wait,
    }
}

} // verus!
