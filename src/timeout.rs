//! Service that applies a timeout to requests.
//!
//! If the response does not complete within the specified timeout, the response
//! is abandoned and the caller gets `TimeoutError::Timeout`.
use std::marker::PhantomData;

use vstd::prelude::*;
use vstd::string::StringExecFns;

use crate::service::Service;
use crate::task::{Delay, Either, Poll, Task};
use crate::time::Duration;

verus! {

/// Timeout error
pub enum TimeoutError<E> {
    /// Service error
    Service(E),
    /// Service call timeout
    Timeout,
}

impl<E> From<E> for TimeoutError<E> {
    fn from(err: E) -> (r: Self) {
        TimeoutError::Service(err)
    }
}

impl<E> vstd::std_specs::convert::FromSpecImpl<E> for TimeoutError<E> {
    open spec fn obeys_from_spec() -> bool {
        true
    }

    open spec fn from_spec(err: E) -> Self {
        TimeoutError::Service(err)
    }
}

impl<E: PartialEq + vstd::std_specs::cmp::PartialEqSpec> PartialEq for TimeoutError<E> {
    fn eq(&self, other: &TimeoutError<E>) -> (r: bool) {
        match self {
            TimeoutError::Service(e1) => match other {
                TimeoutError::Service(e2) => e1 == e2,
                TimeoutError::Timeout => false,
            },
            TimeoutError::Timeout => match other {
                TimeoutError::Service(_) => false,
                TimeoutError::Timeout => true,
            },
        }
    }
}

impl<E: PartialEq + vstd::std_specs::cmp::PartialEqSpec> vstd::std_specs::cmp::PartialEqSpecImpl for TimeoutError<E> {
    open spec fn obeys_eq_spec() -> bool {
        E::obeys_eq_spec()
    }

    open spec fn eq_spec(&self, other: &TimeoutError<E>) -> bool {
        match (self, other) {
            (TimeoutError::Service(e1), TimeoutError::Service(e2)) => E::eq_spec(e1, e2),
            (TimeoutError::Timeout, TimeoutError::Timeout) => true,
            _ => false,
        }
    }
}

/// Diagnostic text of `TimeoutError::Timeout`.
pub open spec fn timeout_debug_text() -> Seq<char> {
    "TimeoutError::Timeout"@
}

/// Diagnostic text of `TimeoutError::Service(e)`, given the diagnostic text of `e`.
pub open spec fn service_debug_text(inner: Seq<char>) -> Seq<char> {
    "TimeoutError::Service("@ + inner + ")"@
}

/// Display text of `TimeoutError::Timeout`.
pub open spec fn timeout_display_text() -> Seq<char> {
    "Service call timeout"@
}

impl<E> TimeoutError<E> {
    /// Diagnostic form: `TimeoutError::Service(<inner>)` or `TimeoutError::Timeout`,
    /// where `render` gives the inner error's diagnostic text.
    pub fn debug_string<F: Fn(&E) -> String>(&self, render: F) -> (r: String)
        requires
            forall|e: &E| render.requires((e,)),
        ensures
            match self {
                TimeoutError::Service(e) => exists|s: String|
                    render.ensures((e,), s) && r@ == service_debug_text(s@),
                TimeoutError::Timeout => r@ == timeout_debug_text(),
            },
    {
        match self {
            TimeoutError::Service(e) => {
                let inner = render(e);
                let mut out = String::from_str("TimeoutError::Service(");
                out.append(inner.as_str());
                out.append(")");
                out
            },
            TimeoutError::Timeout => String::from_str("TimeoutError::Timeout"),
        }
    }

    /// Display form: the inner error's own text, or `Service call timeout`,
    /// where `render` gives the inner error's display text.
    pub fn display_string<F: Fn(&E) -> String>(&self, render: F) -> (r: String)
        requires
            forall|e: &E| render.requires((e,)),
        ensures
            match self {
                TimeoutError::Service(e) => render.ensures((e,), r),
                TimeoutError::Timeout => r@ == timeout_display_text(),
            },
    {
        match self {
            TimeoutError::Service(e) => render(e),
            TimeoutError::Timeout => String::from_str("Service call timeout"),
        }
    }
}

/// An inner outcome re-tagged into the timeout layer's error union.
pub open spec fn map_result_spec<T, E>(r: Result<T, E>) -> Result<T, TimeoutError<E>> {
    match r {
        Ok(v) => Ok(v),
        Err(e) => Err(TimeoutError::Service(e)),
    }
}

/// An inner poll with its error re-tagged; `Pending` stays `Pending`.
pub open spec fn map_poll_spec<T, E>(p: Poll<Result<T, E>>) -> Poll<Result<T, TimeoutError<E>>> {
    match p {
        Poll::Ready(r) => Poll::Ready(map_result_spec(r)),
        Poll::Pending => Poll::Pending,
    }
}

/// One wake of a timed call: the inner outcome, when there is one, wins;
/// else the deadline decides.
pub open spec fn race_spec<T, E>(inner: Poll<Result<T, E>>, expired: bool) -> Poll<Result<T, TimeoutError<E>>> {
    match inner {
        Poll::Ready(r) => Poll::Ready(map_result_spec(r)),
        Poll::Pending => if expired {
            Poll::Ready(Err(TimeoutError::Timeout))
        } else {
            Poll::Pending
        },
    }
}

/// Re-tags an inner error as `TimeoutError::Service`.
pub fn map_result<T, E>(r: Result<T, E>) -> (out: Result<T, TimeoutError<E>>)
    ensures
        out == map_result_spec(r),
{
    match r {
        Ok(v) => Ok(v),
        Err(e) => Err(TimeoutError::Service(e)),
    }
}

/// Re-tags the error of an inner poll, keeping readiness as it is.
pub fn map_poll<T, E>(p: Poll<Result<T, E>>) -> (out: Poll<Result<T, TimeoutError<E>>>)
    ensures
        out == map_poll_spec(p),
{
    match p {
        Poll::Ready(r) => Poll::Ready(map_result(r)),
        Poll::Pending => Poll::Pending,
    }
}

/// Decides one wake of a timed call from the inner poll and whether the
/// deadline has passed.
pub fn race<T, E>(inner: Poll<Result<T, E>>, expired: bool) -> (out: Poll<Result<T, TimeoutError<E>>>)
    ensures
        out == race_spec(inner, expired),
{
    match inner {
        Poll::Ready(r) => Poll::Ready(map_result(r)),
        Poll::Pending => if expired {
            Poll::Ready(Err(TimeoutError::Timeout))
        } else {
            Poll::Pending
        },
    }
}

/// Timing model: the poll of an inner call at time `now`, for an inner call
/// that completes with `v` at time `t`.
pub open spec fn inner_at<T, E>(t: nat, v: Result<T, E>, now: nat) -> Poll<Result<T, E>> {
    if now >= t {
        Poll::Ready(v)
    } else {
        Poll::Pending
    }
}

/// Timing model: what a response yields when polled at time `now`, given the
/// poll `inner` of its inner call, for configured duration `d`. With `d == 0`
/// this is the pass-through poll (`map_poll_spec`); otherwise it is the timed
/// poll (`race_spec`) with a timer that reports ready from time `d` on.
pub open spec fn respond_at<T, E>(d: nat, inner: Poll<Result<T, E>>, now: nat) -> Poll<Result<T, TimeoutError<E>>> {
    if d == 0 {
        map_poll_spec(inner)
    } else {
        race_spec(inner, now >= d)
    }
}

/// The time of the first wake at which a call settles.
pub open spec fn settle_time(d: nat, t: nat) -> nat {
    if d == 0 || t <= d {
        t
    } else {
        d
    }
}

/// The outcome of a call with duration `d` whose inner call completes with `v`
/// at time `t`: the inner outcome before the deadline, `Timeout` after it.
pub open spec fn timed_outcome<T, E>(d: nat, t: nat, v: Result<T, E>) -> Result<T, TimeoutError<E>> {
    if d == 0 || t < d {
        map_result_spec(v)
    } else {
        Err(TimeoutError::Timeout)
    }
}

/// Over the timing model above, with `race_spec` and `map_poll_spec` as the
/// response polls state them: a call stays pending until its inner call
/// completes or a non-zero deadline passes; it then yields the inner outcome if
/// that came first and `Timeout` if the deadline came first. With a zero
/// duration no deadline ever fires. When both come at once the inner outcome
/// wins. The model's timer is an assumption about the `Delay` in use: the
/// library states of `Delay` only that `call` makes it from the configured
/// duration.
pub proof fn lemma_deadline_race<T, E>(d: nat, t: nat, v: Result<T, E>)
    ensures
        forall|now: nat| now < settle_time(d, t) ==> #[trigger] respond_at(d, inner_at(t, v, now), now) is Pending,
        t != d ==> respond_at(d, inner_at(t, v, settle_time(d, t)), settle_time(d, t)) == Poll::Ready(timed_outcome(d, t, v)),
        t == d ==> respond_at(d, inner_at(t, v, t), t) == Poll::Ready(map_result_spec(v)),
{
}

/// Applies a timeout to requests.
///
/// The timeout is disabled when its duration is zero.
pub struct Timeout<E> {
    timeout: Duration,
    _t: PhantomData<E>,
}

impl<E> Timeout<E> {
    /// The configured duration.
    pub closed spec fn duration(&self) -> Duration {
        self.timeout
    }

    pub fn new(timeout: Duration) -> (r: Self)
        ensures
            r.duration() == timeout,
    {
        Timeout { timeout, _t: PhantomData }
    }

    pub fn timeout(&self) -> (r: Duration)
        ensures
            r == self.duration(),
    {
        self.timeout
    }
}

impl<E> Clone for Timeout<E> {
    fn clone(&self) -> (r: Self)
        ensures
            r.duration() == self.duration(),
    {
        Timeout::new(self.timeout)
    }
}

/// A copy of a configured timeout keeps its duration exactly.
pub proof fn lemma_clone_keeps_duration<E>(t: Timeout<E>, c: Timeout<E>)
    requires
        call_ensures(<Timeout<E> as Clone>::clone, (&t,), c),
    ensures
        c.duration() == t.duration(),
{
}

impl<E> Timeout<E> {
    /// Wraps `service`; this never fails and never waits.
    pub fn new_transform<S, D>(&self, service: S) -> (r: Result<TimeoutService<S, D>, E>)
        ensures
            r is Ok,
            r->Ok_0.duration() == self.duration(),
            r->Ok_0.inner() == service,
    {
        Ok(TimeoutService::new(self.timeout, service))
    }
}

/// Applies a timeout to the requests of an inner service; `D` is the timer.
pub struct TimeoutService<S, D> {
    service: S,
    timeout: Duration,
    _d: PhantomData<D>,
}

impl<S, D> TimeoutService<S, D> {
    /// The configured duration.
    pub closed spec fn duration(&self) -> Duration {
        self.timeout
    }

    /// The wrapped service.
    pub closed spec fn inner(&self) -> S {
        self.service
    }

    pub fn new(timeout: Duration, service: S) -> (r: Self)
        ensures
            r.duration() == timeout,
            r.inner() == service,
    {
        TimeoutService { service, timeout, _d: PhantomData }
    }

    pub fn timeout(&self) -> (r: Duration)
        ensures
            r == self.duration(),
    {
        self.timeout
    }

    pub fn get_ref(&self) -> (r: &S)
        ensures
            *r == self.inner(),
    {
        &self.service
    }
}

impl<S: Clone, D> Clone for TimeoutService<S, D> {
    fn clone(&self) -> (r: Self)
        ensures
            r.duration() == self.duration(),
    {
        TimeoutService { service: self.service.clone(), timeout: self.timeout, _d: PhantomData }
    }
}

/// Response of a timed call: the inner call raced against a deadline.
pub struct TimeoutServiceResponse<F, D> {
    fut: F,
    sleep: D,
}

impl<F, D> TimeoutServiceResponse<F, D> {
    /// The inner call's computation.
    pub closed spec fn fut(&self) -> F {
        self.fut
    }

    /// The deadline timer.
    pub closed spec fn sleep(&self) -> D {
        self.sleep
    }
}

/// Response of a call with the timeout disabled: the inner call alone.
pub struct TimeoutServiceResponse2<F> {
    fut: F,
}

impl<F> TimeoutServiceResponse2<F> {
    /// The inner call's computation.
    pub closed spec fn fut(&self) -> F {
        self.fut
    }
}

impl<T, E, F: Task<Output = Result<T, E>>, D: Delay> Task for TimeoutServiceResponse<F, D> {
    type Output = Result<T, TimeoutError<E>>;

    /// Polls the inner call first; the timer only while the inner call is not done.
    fn poll(&mut self, cx: &mut std::task::Context<'_>) -> (r: Poll<Result<T, TimeoutError<E>>>)
        ensures
            exists|f: &mut F, c: &mut std::task::Context<'_>, inner: Poll<Result<T, E>>|
                mut_ref_current(f) == old(self).fut() && mut_ref_future(f) == final(self).fut()
                    && call_ensures(F::poll, (f, c), inner) && (inner is Ready ==> r == race_spec(
                    inner,
                    false,
                ) && final(self).sleep() == old(self).sleep()) && (inner is Pending ==> exists|
                    s: &mut D,
                    c2: &mut std::task::Context<'_>,
                    d: Poll<()>,
                |
                    mut_ref_current(s) == old(self).sleep() && mut_ref_future(s) == final(self).sleep()
                        && call_ensures(D::poll, (s, c2), d) && r == race_spec(inner, d is Ready)),
    {
        let inner = self.fut.poll(cx);
        if inner.is_pending() {
            let deadline = self.sleep.poll(cx);
            race(inner, deadline.is_ready())
        } else {
            race(inner, false)
        }
    }
}

impl<T, E, F: Task<Output = Result<T, E>>> Task for TimeoutServiceResponse2<F> {
    type Output = Result<T, TimeoutError<E>>;

    fn poll(&mut self, cx: &mut std::task::Context<'_>) -> (r: Poll<Result<T, TimeoutError<E>>>)
        ensures
            exists|f: &mut F, c: &mut std::task::Context<'_>, inner: Poll<Result<T, E>>|
                mut_ref_current(f) == old(self).fut() && mut_ref_future(f) == final(self).fut()
                    && call_ensures(F::poll, (f, c), inner) && r == map_poll_spec(inner),
    {
        map_poll(self.fut.poll(cx))
    }
}

impl<S: Service, D: Delay> Service for TimeoutService<S, D> {
    type Request = S::Request;
    type Response = S::Response;
    type Error = TimeoutError<S::Error>;
    type Future = Either<TimeoutServiceResponse<S::Future, D>, TimeoutServiceResponse2<S::Future>>;

    fn poll_ready(&self, cx: &mut std::task::Context<'_>) -> (r: Poll<Result<(), TimeoutError<S::Error>>>)
        ensures
            exists|c: &mut std::task::Context<'_>, inner: Poll<Result<(), S::Error>>|
                call_ensures(S::poll_ready, (&self.inner(), c), inner) && r == map_poll_spec(inner),
    {
        let inner = self.service.poll_ready(cx);
        assert(exists|c: &mut std::task::Context<'_>| call_ensures(S::poll_ready, (&self.service, c), inner));
        assert(self.inner() == self.service);
        map_poll(inner)
    }

    fn poll_shutdown(&self, cx: &mut std::task::Context<'_>, is_error: bool) -> (r: Poll<()>)
        ensures
            exists|c: &mut std::task::Context<'_>| call_ensures(S::poll_shutdown, (&self.inner(), c, is_error), r),
    {
        let r = self.service.poll_shutdown(cx, is_error);
        assert(exists|c: &mut std::task::Context<'_>| call_ensures(S::poll_shutdown, (&self.inner(), c, is_error), r));
        r
    }

    fn call(&self, request: S::Request) -> (r: Self::Future)
        ensures
            (r is Right) == (self.duration()@ == 0),
            r is Left ==> call_ensures(S::call, (&self.inner(), request), r->Left_0.fut())
                && call_ensures(D::delay_for, (self.duration(),), r->Left_0.sleep()),
            r is Right ==> call_ensures(S::call, (&self.inner(), request), r->Right_0.fut()),
    {
        if self.timeout.is_zero() {
            Either::Right(TimeoutServiceResponse2 { fut: self.service.call(request) })
        } else {
            Either::Left(TimeoutServiceResponse {
                fut: self.service.call(request),
                sleep: D::delay_for(self.timeout),
            })
        }
    }
}

/// The timeout layer neither extends nor shortens shutdown: where every
/// shutdown poll of the inner service reports complete, so does every one of
/// the layer's, and where every one of the inner service's stays pending, so
/// does every one of the layer's.
pub proof fn lemma_shutdown_follows_inner<S: Service, D: Delay>(srv: &TimeoutService<S, D>, is_error: bool)
    ensures
        (forall|c: &mut std::task::Context<'_>, r: Poll<()>|
            call_ensures(S::poll_shutdown, (&srv.inner(), c, is_error), r) ==> r is Ready) ==> (forall|
            c: &mut std::task::Context<'_>,
            r: Poll<()>,
        | call_ensures(<TimeoutService<S, D> as Service>::poll_shutdown, (srv, c, is_error), r) ==> r is Ready),
        (forall|c: &mut std::task::Context<'_>, r: Poll<()>|
            call_ensures(S::poll_shutdown, (&srv.inner(), c, is_error), r) ==> r is Pending) ==> (forall|
            c: &mut std::task::Context<'_>,
            r: Poll<()>,
        | call_ensures(<TimeoutService<S, D> as Service>::poll_shutdown, (srv, c, is_error), r) ==> r is Pending),
{
}

} // verus!
