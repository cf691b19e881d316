//! `epoll` events and the decisions of the epoll-based echo servers.
//!
//! Every descriptor is registered with its own number in the event's `u64`
//! field, so that a reported event names the descriptor it is about.
use crate::consts::{epollin, spec_epollin};
use vstd::prelude::*;

verus! {

/// An `epoll_event`: the event mask and the user data word.
#[allow(non_camel_case_types)]
#[derive(Clone, Copy, Debug, PartialEq, Eq, Structural)]
pub struct ev {
    pub events: u32,
    pub u64: u64,
}

/// The event registered for descriptor `fd`: the mask `event_type` and the
/// descriptor itself as user data.
pub fn event_for(fd: i32, event_type: i32) -> (r: ev)
    ensures
        r.events == event_type as u32,
        r.u64 == fd as u64,
{
    ev { events: event_type as u32, u64: fd as u64 }
}

/// The descriptor that a reported event is about.
pub fn event_fd(event: &ev) -> (r: i32)
    ensures
        r == event.u64 as i32,
{
    event.u64 as i32
}

/// An event built by `event_for` names the descriptor it was built for.
pub proof fn lemma_event_fd_roundtrip(fd: i32, event_type: i32)
    ensures
        ((fd as u64) as i32) == fd,
        (event_type as u32) as i32 == event_type,
{
    assert(((fd as u64) as i32) == fd) by (bit_vector);
    assert((event_type as u32) as i32 == event_type) by (bit_vector);
}

/// What an echo server does with a reported event.
#[derive(Clone, Copy, Debug, PartialEq, Eq, Structural)]
pub enum EchoEvent {
    /// The listening socket is readable: accept and register the client.
    Accept,
    /// A client socket is readable: read from it.
    Client(i32),
}

/// Sorts a reported event of an echo server whose listening socket is
/// `server_fd`.
pub fn dispatch_echo_event(event: &ev, server_fd: i32) -> (r: EchoEvent)
    ensures
        event.u64 == server_fd as u64 ==> r == EchoEvent::Accept,
        event.u64 != server_fd as u64 ==> r == EchoEvent::Client(event.u64 as i32),
{
    if event.u64 == server_fd as u64 {
        EchoEvent::Accept
    } else {
        EchoEvent::Client(event.u64 as i32)
    }
}

/// What to do after reading from a client.
#[derive(Clone, Copy, Debug, PartialEq, Eq, Structural)]
pub enum ReadOutcome {
    /// The client has closed the connection: deregister and close it.
    PeerClosed,
    /// Write back the bytes read.
    Echo(usize),
}

/// Decides what follows a `read` of a client that returned `n_read`
/// (a failed read, `-1`, stops the server and is not handled here).
pub fn on_client_read(n_read: isize) -> (r: ReadOutcome)
    requires
        n_read >= 0,
    ensures
        n_read == 0 ==> r == ReadOutcome::PeerClosed,
        n_read > 0 ==> r == ReadOutcome::Echo(n_read as usize),
{
    if n_read == 0 {
        ReadOutcome::PeerClosed
    } else {
        ReadOutcome::Echo(n_read as usize)
    }
}

/// What the forked child of the multi-client server does after reading one
/// byte from its client.
#[derive(Clone, Copy, Debug, PartialEq, Eq, Structural)]
pub enum ChildStep {
    /// The read returned 0: the client is gone; shut the socket down and end
    /// the child process (it never goes back to accepting connections).
    ShutdownAndExit,
    /// Write the byte back and read again (the child does this whatever else
    /// the read returned).
    EchoByte,
}

/// Decides the forked child's next step from what `read` returned.
pub fn forked_child_step(n_read: isize) -> (r: ChildStep)
    ensures
        n_read == 0 ==> r == ChildStep::ShutdownAndExit,
        n_read != 0 ==> r == ChildStep::EchoByte,
{
    if n_read == 0 {
        ChildStep::ShutdownAndExit
    } else {
        ChildStep::EchoByte
    }
}

/// What the server that echoes both TCP and UDP does with a reported event.
#[derive(Clone, Copy, Debug, PartialEq, Eq, Structural)]
pub enum DualEvent {
    /// The event does not report readability: ignore it.
    Skip,
    /// The TCP listening socket is readable: accept and register the client.
    Accept,
    /// The UDP socket is readable: echo one datagram to its sender.
    Datagram,
    /// A TCP client is readable: drain it.
    Stream(i32),
}

/// Sorts a reported event of the server that echoes both TCP (listening
/// socket `tcp_fd`) and UDP (socket `udp_fd`).
pub fn dispatch_dual_event(event: &ev, tcp_fd: i32, udp_fd: i32) -> (r: DualEvent)
    ensures
        (event.events as i32) & spec_epollin() != spec_epollin() ==> r == DualEvent::Skip,
        (event.events as i32) & spec_epollin() == spec_epollin() ==> r == if event.u64 as i32
            == tcp_fd {
            DualEvent::Accept
        } else if event.u64 as i32 == udp_fd {
            DualEvent::Datagram
        } else {
            DualEvent::Stream(event.u64 as i32)
        },
{
    let readable = epollin();
    if (event.events as i32) & readable != readable {
        return DualEvent::Skip;
    }
    let fd = event.u64 as i32;
    if fd == tcp_fd {
        DualEvent::Accept
    } else if fd == udp_fd {
        DualEvent::Datagram
    } else {
        DualEvent::Stream(fd)
    }
}

/// Why a non-blocking read or accept failed.
#[derive(Clone, Copy, Debug, PartialEq, Eq, Structural)]
pub enum IoErrorKind {
    /// Nothing to read or accept now (`EAGAIN` / `EWOULDBLOCK`).
    WouldBlock,
    /// Any other error.
    Other,
}

/// The next step in draining a non-blocking TCP client.
#[derive(Clone, Copy, Debug, PartialEq, Eq, Structural)]
pub enum StreamStep {
    /// Nothing more to read for now: go back to waiting.
    Drained,
    /// The client has closed the connection: close it and stop.
    Closed,
    /// This many bytes arrived: send exactly those bytes back and read again.
    Echo(usize),
}

/// Decides the next step after a `recv` from a TCP client returned `result`
/// (the byte count, or the kind of error; an error other than "would block"
/// stops the server and is not handled here).
pub fn on_stream_recv(result: Result<usize, IoErrorKind>) -> (r: StreamStep)
    requires
        result != Err::<usize, IoErrorKind>(IoErrorKind::Other),
    ensures
        result == Err::<usize, IoErrorKind>(IoErrorKind::WouldBlock) ==> r == StreamStep::Drained,
        result == Ok::<usize, IoErrorKind>(0) ==> r == StreamStep::Closed,
        result matches Ok(n) ==> (n > 0 ==> r == StreamStep::Echo(n)),
{
    match result {
        Err(_) => StreamStep::Drained,
        Ok(0) => StreamStep::Closed,
        Ok(n) => StreamStep::Echo(n),
    }
}

} // verus!
