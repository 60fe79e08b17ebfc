//! Hand-off point where a protocol layer passes an established connection to
//! another handler.
use vstd::prelude::*;

use crate::service::{Service, ServiceFactory};
use crate::task::{Poll, Task};

verus! {

/// What a concrete protocol switch supplies: how an upgraded connection is handled.
pub trait Upgrade {
    /// The leading request, the transport and the residual codec.
    type Request;
    type Error;
    type Future: Task<Output = Result<(), Self::Error>>;

    fn upgrade(&self, req: Self::Request) -> Self::Future;
}

/// Service that hands an upgraded connection to `H`; it has no backpressure
/// of its own.
pub struct UpgradeHandler<H>(pub H);

impl<H: Upgrade> Service for UpgradeHandler<H> {
    type Request = H::Request;
    type Response = ();
    type Error = H::Error;
    type Future = H::Future;

    fn poll_ready(&self, cx: &mut std::task::Context<'_>) -> (r: Poll<Result<(), H::Error>>)
        ensures
            r == Poll::<Result<(), H::Error>>::Ready(Ok(())),
    {
        Poll::Ready(Ok(()))
    }

    fn poll_shutdown(&self, cx: &mut std::task::Context<'_>, is_error: bool) -> (r: Poll<()>)
        ensures
            r == Poll::Ready(()),
    {
        Poll::Ready(())
    }

    fn call(&self, req: H::Request) -> (r: H::Future)
        ensures
            call_ensures(H::upgrade, (&self.0, req), r),
    {
        self.0.upgrade(req)
    }
}

impl<H: Upgrade + Clone> ServiceFactory for UpgradeHandler<H> {
    type Config = ();
    type Service = UpgradeHandler<H>;
    type InitError = H::Error;

    fn new_service(&self, cfg: ()) -> (r: Result<UpgradeHandler<H>, H::Error>)
        ensures
            r is Ok,
    {
        Ok(UpgradeHandler(self.0.clone()))
    }
}

} // verus!
