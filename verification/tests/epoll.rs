use beginning_linux_programming::epoll::{
    dispatch_dual_event, dispatch_echo_event, event_fd, event_for, forked_child_step,
    on_client_read, on_stream_recv, ev, ChildStep, DualEvent, EchoEvent, IoErrorKind,
    ReadOutcome, StreamStep,
};

#[test]
fn events_carry_their_descriptor() {
    let e = event_for(7, 0x1);
    assert_eq!(e, ev { events: 1, u64: 7 });
    assert_eq!(event_fd(&e), 7);
    assert_eq!(event_fd(&event_for(-1, 0x1)), -1);
    assert_eq!(event_for(-1, 0x1).u64, u64::MAX);
    assert_eq!(event_for(3, -1).events, u32::MAX);
}

#[test]
fn echo_server_dispatch() {
    assert_eq!(dispatch_echo_event(&event_for(3, 1), 3), EchoEvent::Accept);
    assert_eq!(dispatch_echo_event(&event_for(9, 1), 3), EchoEvent::Client(9));
}

#[test]
fn client_read_outcomes() {
    assert_eq!(on_client_read(0), ReadOutcome::PeerClosed);
    assert_eq!(on_client_read(1), ReadOutcome::Echo(1));
    assert_eq!(on_client_read(8192), ReadOutcome::Echo(8192));
}

#[test]
fn dual_server_dispatch() {
    assert_eq!(dispatch_dual_event(&ev { events: 0x4, u64: 3 }, 3, 4), DualEvent::Skip);
    assert_eq!(dispatch_dual_event(&event_for(3, 1), 3, 4), DualEvent::Accept);
    assert_eq!(dispatch_dual_event(&event_for(4, 1), 3, 4), DualEvent::Datagram);
    assert_eq!(dispatch_dual_event(&event_for(8, 1 | 0x10), 3, 4), DualEvent::Stream(8));
}

#[test]
fn stream_drain_steps() {
    assert_eq!(on_stream_recv(Err(IoErrorKind::WouldBlock)), StreamStep::Drained);
    assert_eq!(on_stream_recv(Ok(0)), StreamStep::Closed);
    assert_eq!(on_stream_recv(Ok(12)), StreamStep::Echo(12));
    assert_eq!(on_stream_recv(Ok(1)), StreamStep::Echo(1));
}

#[test]
fn forked_child_steps() {
    assert_eq!(forked_child_step(0), ChildStep::ShutdownAndExit);
    assert_eq!(forked_child_step(1), ChildStep::EchoByte);
    assert_eq!(forked_child_step(-1), ChildStep::EchoByte);
}
