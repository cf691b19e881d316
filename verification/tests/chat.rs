use beginning_linux_programming::chat::{
    chat_message, classify_revents, room_size, ChatRoom, JoinOutcome, PollEvent, PollSlot,
    ReceiveStep, SlotAction,
    CHAT_ROOM_SIZE,
};

#[test]
fn room_size_is_capped() {
    assert_eq!(room_size(64), 64);
    assert_eq!(room_size(1024), CHAT_ROOM_SIZE);
    assert_eq!(room_size(1000), 1000);
    assert_eq!(room_size(1 << 40), 1000);
}

#[test]
fn new_room_watches_only_the_listener() {
    let room = ChatRoom::new(6, 3);
    assert_eq!(room.len(), 6);
    assert_eq!(room.server_fd(), 3);
    assert_eq!(room.slot(0), PollSlot { fd: 3, events: 0x1 | 0x8 });
    for i in 1..6 {
        assert_eq!(room.slot(i), PollSlot { fd: -1, events: 0 });
    }
    assert!(room.is_listening_slot(0));
    assert!(!room.is_listening_slot(1));
}

#[test]
fn clients_join_in_the_slot_of_their_descriptor() {
    let mut room = ChatRoom::new(6, 3);
    assert_eq!(room.join(4), JoinOutcome::Joined);
    assert_eq!(room.slot(4), PollSlot { fd: 4, events: 0x1 | 0x8 | 0x10 });
    assert_eq!(room.join(7), JoinOutcome::Rejected);
    assert_eq!(room.len(), 6);
}

#[test]
fn messages_go_to_every_other_client() {
    let mut room = ChatRoom::new(8, 3);
    room.join(4);
    room.join(5);
    room.join(7);
    assert_eq!(room.recipients(4), vec![5, 7]);
    assert_eq!(room.recipients(5), vec![4, 7]);
    assert_eq!(room.recipients(0), vec![4, 5, 7]);
    let closed = room.leave(5);
    assert_eq!(closed, 5);
    assert_eq!(room.slot(5).fd, -1);
    assert_eq!(room.recipients(4), vec![7]);
    assert_eq!(room.recipients(7), vec![4]);
}

#[test]
fn chat_message_is_prefixed_with_the_sender() {
    assert_eq!(chat_message(4, b"hi\n"), b"(4): hi\n".to_vec());
    assert_eq!(chat_message(123, b""), b"(123): ".to_vec());
}

#[test]
fn revents_are_tested_in_order() {
    assert_eq!(classify_revents(0x1), PollEvent::Readable);
    assert_eq!(classify_revents(0x1 | 0x10), PollEvent::Readable);
    assert_eq!(classify_revents(0x4), PollEvent::Writable);
    assert_eq!(classify_revents(0x4 | 0x8), PollEvent::Writable);
    assert_eq!(classify_revents(0x8), PollEvent::Error);
    assert_eq!(classify_revents(0x8 | 0x10), PollEvent::Error);
    assert_eq!(classify_revents(0x10), PollEvent::HangUp);
    assert_eq!(classify_revents(0), PollEvent::Idle);
    assert_eq!(classify_revents(0x20), PollEvent::Idle);
}

#[test]
fn slot_table_keeps_its_shape() {
    let mut room = ChatRoom::new(10, 3);
    for fd in [4, 6, 9, 11] {
        room.join(fd);
    }
    room.leave(6);
    room.join(5);
    assert_eq!(room.slot(0).fd, 3);
    for i in 1..room.len() {
        let fd = room.slot(i).fd;
        assert!(fd == -1 || fd == i as i32, "slot {} holds {}", i, fd);
    }
    assert_eq!(room.len(), 10);
}

#[test]
fn slot_actions_follow_revents_and_slot() {
    let mut room = ChatRoom::new(8, 3);
    room.join(5);
    assert_eq!(room.slot_action(0, 0x1), SlotAction::Accept);
    assert_eq!(room.slot_action(5, 0x1 | 0x10), SlotAction::Receive(5));
    assert_eq!(room.slot_action(5, 0x4), SlotAction::Writable);
    assert_eq!(room.slot_action(5, 0x8), SlotAction::Error);
    assert_eq!(room.slot_action(5, 0x10), SlotAction::HangUp);
    assert_eq!(room.slot_action(2, 0), SlotAction::Idle);
}

#[test]
fn receive_broadcasts_or_lets_the_client_leave() {
    let mut room = ChatRoom::new(8, 3);
    room.join(4);
    room.join(5);
    room.join(6);
    match room.receive(5, b"hello\n") {
        ReceiveStep::Broadcast(msg, to) => {
            assert_eq!(msg, b"(5): hello\n".to_vec());
            assert_eq!(to, vec![4, 6]);
        }
        ReceiveStep::Left(fd) => panic!("unexpected leave of {}", fd),
    }
    match room.receive(5, b"") {
        ReceiveStep::Left(fd) => assert_eq!(fd, 5),
        ReceiveStep::Broadcast(..) => panic!("unexpected broadcast"),
    }
    assert_eq!(room.slot(5).fd, -1);
    assert_eq!(room.recipients(4), vec![6]);
}
