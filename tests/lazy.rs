use std::task::Context;

use ntex::lazy::lazy;
use ntex::task::Poll;

#[test]
fn lazy_runs_closure_on_first_poll() {
    let mut cx = Context::from_waker(futures::task::noop_waker_ref());
    let mut runs = 0u32;
    let mut l = lazy(|_: &mut Context<'_>| {
        runs += 1;
        42u32
    });
    assert!(!l.is_terminated());
    assert!(matches!(l.poll(&mut cx), Poll::Ready(42)));
    assert!(l.is_terminated());
    drop(l);
    assert_eq!(runs, 1);
}

#[test]
fn lazy_does_not_run_before_poll() {
    let mut ran = false;
    let l = lazy(|_: ()| ran = true);
    drop(l);
    assert!(!ran);
}
