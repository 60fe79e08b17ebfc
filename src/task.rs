//! Polling vocabulary shared by services and their responses.
use vstd::prelude::*;

verus! {

#[verifier::external_type_specification]
#[verifier::external_body]
pub struct ExContext<'a>(std::task::Context<'a>);

/// Outcome of polling an asynchronous computation once.
pub enum Poll<T> {
    /// The computation has finished with this value.
    Ready(T),
    /// The computation is not finished; the caller is woken later.
    Pending,
}

impl<T> Poll<T> {
    pub fn is_ready(&self) -> (r: bool)
        ensures
            r == (self is Ready),
    {
        match self {
            Poll::Ready(_) => true,
            Poll::Pending => false,
        }
    }

    pub fn is_pending(&self) -> (r: bool)
        ensures
            r == (self is Pending),
    {
        match self {
            Poll::Ready(_) => false,
            Poll::Pending => true,
        }
    }
}

/// A computation that is driven to completion by repeated polls.
pub trait Task {
    type Output;

    /// Advances the computation; `Pending` registers `cx`'s waker.
    fn poll(&mut self, cx: &mut std::task::Context<'_>) -> Poll<Self::Output>;
}

/// Either of two computations with the same output.
pub enum Either<A, B> {
    Left(A),
    Right(B),
}

impl<A: Task, B: Task<Output = A::Output>> Task for Either<A, B> {
    type Output = A::Output;

    fn poll(&mut self, cx: &mut std::task::Context<'_>) -> Poll<A::Output> {
        match self {
            Either::Left(a) => a.poll(cx),
            Either::Right(b) => b.poll(cx),
        }
    }
}

/// A timer that completes once a given duration has passed since it was made.
pub trait Delay: Task<Output = ()> + Sized {
    fn delay_for(duration: crate::time::Duration) -> Self;
}

} // verus!
