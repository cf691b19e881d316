use beginning_linux_programming::select::{ClientAction, FdSet, SelectEvent, SelectServer};

#[test]
fn fd_set_membership() {
    let mut set = FdSet::new();
    assert!(!set.contains(0));
    set.insert(5);
    set.insert(1023);
    set.insert(0);
    assert!(set.contains(5));
    assert!(set.contains(1023));
    assert_eq!(set.members(), vec![0, 5, 1023]);
    set.remove(5);
    assert!(!set.contains(5));
    assert_eq!(set.members(), vec![0, 1023]);
}

#[test]
fn listener_ready_means_new_connection() {
    let server = SelectServer::new(3);
    assert_eq!(server.server_fd(), 3);
    assert_eq!(server.watched().members(), vec![3]);
    let mut ready = FdSet::new();
    ready.insert(3);
    ready.insert(6);
    assert_eq!(server.next_event(&ready), Some(SelectEvent::NewConnection));
}

#[test]
fn lowest_ready_client_is_served_first() {
    let server = SelectServer::new(3);
    let mut ready = FdSet::new();
    ready.insert(9);
    ready.insert(6);
    ready.insert(1);
    assert_eq!(server.next_event(&ready), Some(SelectEvent::ClientReady(6)));
}

#[test]
fn descriptors_below_the_listener_are_ignored() {
    let server = SelectServer::new(3);
    let mut ready = FdSet::new();
    ready.insert(0);
    ready.insert(2);
    assert_eq!(server.next_event(&ready), None);
}

#[test]
fn clients_are_watched_until_they_hang_up() {
    let mut server = SelectServer::new(3);
    server.add_client(5);
    assert_eq!(server.watched().members(), vec![3, 5]);
    assert_eq!(server.client_step(5, 4), ClientAction::Echo(5, 4));
    assert_eq!(server.watched().members(), vec![3, 5]);
    assert_eq!(server.client_step(5, 0), ClientAction::Close(5));
    assert_eq!(server.watched().members(), vec![3]);
}

#[test]
fn watched_set_is_listener_and_live_clients() {
    let mut server = SelectServer::new(3);
    server.add_client(4);
    server.add_client(7);
    server.add_client(9);
    server.client_step(7, 0);
    server.client_step(9, 2);
    assert_eq!(server.watched().members(), vec![3, 4, 9]);
    let mut ready = FdSet::new();
    ready.insert(4);
    assert_eq!(server.next_event(&ready), Some(SelectEvent::ClientReady(4)));
}
