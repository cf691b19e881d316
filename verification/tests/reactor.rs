use beginning_linux_programming::epoll::IoErrorKind;
use beginning_linux_programming::reactor::{accept_poll, AcceptPoll, WakerTable};

#[test]
fn a_registered_waker_is_taken_once() {
    let mut table: WakerTable<&str> = WakerTable::new();
    assert_eq!(table.len(), 0);
    table.register(5, "task-a");
    table.register(6, "task-b");
    assert_eq!(table.len(), 2);
    assert_eq!(table.take(5), Some("task-a"));
    assert_eq!(table.take(5), None);
    assert_eq!(table.len(), 1);
    assert_eq!(table.take(6), Some("task-b"));
}

#[test]
fn registering_again_replaces_the_waker() {
    let mut table: WakerTable<u32> = WakerTable::new();
    table.register(3, 1);
    table.register(3, 2);
    assert_eq!(table.len(), 1);
    assert_eq!(table.take(3), Some(2));
    assert_eq!(table.take(4), None);
}

#[test]
fn accept_poll_outcomes() {
    assert_eq!(accept_poll(Ok(())), AcceptPoll::Ready);
    assert_eq!(accept_poll(Err(IoErrorKind::WouldBlock)), AcceptPoll::RegisterAndWait);
    assert_eq!(accept_poll(Err(IoErrorKind::Other)), AcceptPoll::Failed);
}
