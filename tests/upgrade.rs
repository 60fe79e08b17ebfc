use std::task::Context;

use ntex::service::{Service, ServiceFactory};
use ntex::task::{Poll, Task};
use ntex::upgrade::{Upgrade, UpgradeHandler};

struct Done(Result<(), String>);

impl Task for Done {
    type Output = Result<(), String>;

    fn poll(&mut self, _: &mut Context<'_>) -> Poll<Result<(), String>> {
        Poll::Ready(self.0.clone())
    }
}

#[derive(Clone)]
struct Echo;

impl Upgrade for Echo {
    type Request = u32;
    type Error = String;
    type Future = Done;

    fn upgrade(&self, req: u32) -> Done {
        if req == 0 {
            Done(Err("empty".to_string()))
        } else {
            Done(Ok(()))
        }
    }
}

#[test]
fn upgrade_handler_is_always_ready() {
    let mut cx = Context::from_waker(futures::task::noop_waker_ref());
    let h = UpgradeHandler(Echo);
    assert!(matches!(h.poll_ready(&mut cx), Poll::Ready(Ok(()))));
    assert!(h.poll_shutdown(&mut cx, false).is_ready());
}

#[test]
fn upgrade_handler_hands_request_over() {
    let mut cx = Context::from_waker(futures::task::noop_waker_ref());
    let factory = UpgradeHandler(Echo);
    let h = factory.new_service(()).unwrap();
    assert!(matches!(h.call(1).poll(&mut cx), Poll::Ready(Ok(()))));
    assert!(matches!(h.call(0).poll(&mut cx), Poll::Ready(Err(e)) if e == "empty"));
}
