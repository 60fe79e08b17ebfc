//! The request-handling contract shared by every layer of a stack.
use vstd::prelude::*;

use crate::task::{Poll, Task};

verus! {

/// An asynchronous request handler with backpressure and cooperative shutdown.
///
/// A caller polls `poll_ready` and calls `call` only after it has seen
/// `Ready(Ok(()))`; this order is a convention that no layer checks.
pub trait Service {
    type Request;
    type Response;
    type Error;
    type Future: Task<Output = Result<Self::Response, Self::Error>>;

    /// `Ready(Ok(()))` when a request can be taken, `Pending` under backpressure.
    fn poll_ready(&self, cx: &mut std::task::Context<'_>) -> Poll<Result<(), Self::Error>>;

    /// `Ready(())` once in-flight work has drained; with `is_error` the caller
    /// is unwinding and the service may report completion at once.
    fn poll_shutdown(&self, cx: &mut std::task::Context<'_>, is_error: bool) -> Poll<()>;

    /// Starts handling `req`.
    fn call(&self, req: Self::Request) -> Self::Future;
}

/// Builds services from configuration.
pub trait ServiceFactory {
    type Config;
    type Service: Service;
    type InitError;

    fn new_service(&self, cfg: Self::Config) -> Result<Self::Service, Self::InitError>;
}

} // verus!
