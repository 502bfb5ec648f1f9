use rtmp_channels::manager::ChannelsManager;
use std::cell::RefCell;
use std::sync::Arc;

pub struct TestFunc {}

impl TestFunc {
    fn new() -> Self {
        Self {}
    }
    pub fn aaa(&mut self) {}
}

#[test]
fn test_lock() {
    let channel = Arc::new(RefCell::new(TestFunc::new()));
    channel.borrow_mut().aaa();
}

#[test]
fn a_shared_manager_can_be_changed() {
    let manager = Arc::new(RefCell::new(ChannelsManager::<()>::new(None)));
    manager.borrow_mut().set_hls_enabled(true);
    assert!(manager.borrow().notifier().is_none());
}
