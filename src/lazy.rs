//! A computation that runs one closure on its first poll.
use vstd::prelude::*;

use crate::task::Poll;

verus! {

/// Computation returned by [`lazy`].
#[must_use]
pub struct Lazy<F> {
    f: Option<F>,
}

/// Creates a computation that runs `f` when it is first polled.
pub fn lazy<F>(f: F) -> (r: Lazy<F>)
    ensures
        r.pending() == Some(f),
{
    Lazy { f: Some(f) }
}

impl<F> Lazy<F> {
    /// The closure still to be run, or `None` once the computation has completed.
    pub closed spec fn pending(&self) -> Option<F> {
        self.f
    }

    /// Whether the closure has already run.
    pub fn is_terminated(&self) -> (r: bool)
        ensures
            r == (self.pending() is None),
    {
        self.f.is_none()
    }

    /// Runs the closure with the polling context `cx` and completes with its
    /// value. A second poll is a caller bug: the closure is gone.
    pub fn poll<A, R>(&mut self, cx: A) -> (r: Poll<R>)
        where
            F: FnOnce(A) -> R,
        requires
            old(self).pending() is Some,
            old(self).pending()->Some_0.requires((cx,)),
        ensures
            final(self).pending() is None,
            r is Ready,
            old(self).pending()->Some_0.ensures((cx,), r->Ready_0),
    {
        let f = self.f.take().unwrap();
        Poll::Ready(f(cx))
    }
}

} // verus!
