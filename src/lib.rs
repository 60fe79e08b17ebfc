//! Composable asynchronous services: the `Service` contract, a timeout layer
//! that races each call against a deadline, a one-shot deferred computation,
//! and the hand-off point for protocol upgrades.
pub mod lazy;
pub mod service;
pub mod task;
pub mod time;
pub mod timeout;
pub mod upgrade;
