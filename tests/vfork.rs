use std::cell::Cell;
use std::rc::Rc;
use bytes::{Bytes, BytesMut};
use wasi_abi::WasiVFork;

struct DropCounter(Rc<Cell<u32>>);

impl Drop for DropCounter {
    fn drop(&mut self) {
        self.0.set(self.0.get() + 1);
    }
}

#[test]
fn capture_keeps_every_part() {
    let handle_drops = Rc::new(Cell::new(0u32));
    let env_drops = Rc::new(Cell::new(0u32));
    let fork = WasiVFork::capture(
        BytesMut::from(&b"rewind"[..]),
        BytesMut::from(&b"stack"[..]),
        Bytes::from_static(b"store"),
        Box::new(DropCounter(env_drops.clone())),
        DropCounter(handle_drops.clone()),
        4096,
    );
    assert_eq!(&fork.rewind_stack[..], b"rewind");
    assert_eq!(&fork.memory_stack[..], b"stack");
    assert_eq!(&fork.store_data[..], b"store");
    assert_eq!(fork.pid_offset, 4096);
    assert_eq!(handle_drops.get(), 0);
    assert_eq!(env_drops.get(), 0);
    fork.abandon();
}

#[test]
fn abandoning_releases_env_and_handle_once() {
    let handle_drops = Rc::new(Cell::new(0u32));
    let env_drops = Rc::new(Cell::new(0u32));
    let store = Bytes::from(b"store".to_vec());
    let fork = WasiVFork::capture(
        BytesMut::from(&b"rewind"[..]),
        BytesMut::from(&b"stack"[..]),
        store.clone(),
        Box::new(DropCounter(env_drops.clone())),
        DropCounter(handle_drops.clone()),
        8,
    );
    fork.abandon();
    assert_eq!(handle_drops.get(), 1);
    assert_eq!(env_drops.get(), 1);
    assert_eq!(Rc::strong_count(&handle_drops), 1);
    assert_eq!(Rc::strong_count(&env_drops), 1);
    assert!(store.is_unique());
}
