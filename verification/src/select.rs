//! Descriptor sets and the decisions of the `select`-based echo servers.
//!
//! The server keeps the set of descriptors it watches (the listening socket
//! and every connected client). After each `select` it handles the first
//! ready descriptor at or above the listening socket: a new connection is
//! accepted and watched; a client with no bytes pending has hung up and is
//! closed and dropped; otherwise its pending bytes are echoed back.
use crate::consts::{fd_setsize, spec_fd_setsize};
use vstd::prelude::*;

verus! {

/// A set of descriptors below `FD_SETSIZE`, as an `fd_set` holds them.
pub struct FdSet {
    bits: [bool; 1024],
}

impl View for FdSet {
    type V = Set<i32>;

    closed spec fn view(&self) -> Set<i32> {
        Set::new(|fd: i32| 0 <= fd < spec_fd_setsize() && self.bits@[fd as int])
    }
}

/// A descriptor that an `fd_set` can hold.
pub open spec fn in_fd_range(fd: i32) -> bool {
    0 <= fd < spec_fd_setsize()
}

impl FdSet {
    /// `FD_ZERO`: the empty set.
    pub fn new() -> (r: FdSet)
        ensures
            r@ == Set::<i32>::empty(),
    {
        let r = FdSet { bits: [false; 1024] };
        assert(r@ =~= Set::<i32>::empty());
        r
    }

    /// `FD_SET`: adds `fd`.
    pub fn insert(&mut self, fd: i32)
        requires
            in_fd_range(fd),
        ensures
            final(self)@ == old(self)@.insert(fd),
    {
        self.bits[fd as usize] = true;
        assert(self@ =~= old(self)@.insert(fd));
    }

    /// `FD_CLR`: removes `fd`.
    pub fn remove(&mut self, fd: i32)
        requires
            in_fd_range(fd),
        ensures
            final(self)@ == old(self)@.remove(fd),
    {
        self.bits[fd as usize] = false;
        assert(self@ =~= old(self)@.remove(fd));
    }

    /// `FD_ISSET`: whether `fd` is in the set.
    pub fn contains(&self, fd: i32) -> (r: bool)
        requires
            in_fd_range(fd),
        ensures
            r == self@.contains(fd),
    {
        self.bits[fd as usize]
    }

    /// The members, in increasing order.
    pub fn members(&self) -> (r: Vec<i32>)
        ensures
            forall|i: int, j: int| 0 <= i < j < r@.len() ==> r@[i] < r@[j],
            forall|fd: i32| #[trigger] r@.contains(fd) <==> self@.contains(fd),
    {
        let mut out: Vec<i32> = Vec::new();
        let mut i: usize = 0;
        while i < self.bits.len()
            invariant
                i <= self.bits@.len() == spec_fd_setsize(),
                forall|a: int, b: int| 0 <= a < b < out@.len() ==> out@[a] < out@[b],
                forall|k: int| 0 <= k < out@.len() ==> 0 <= #[trigger] out@[k] < i,
                forall|fd: i32|
                    #[trigger] out@.contains(fd) <==> (0 <= fd < i && self.bits@[fd as int]),
            decreases self.bits.len() - i,
        {
            if self.bits[i] {
                let ghost before = out@;
                out.push(i as i32);
                assert forall|fd: i32| #[trigger] out@.contains(fd) <==> (0 <= fd < i + 1
                    && self.bits@[fd as int]) by {
                    if out@.contains(fd) && fd != i as i32 {
                        let k = choose|k: int| 0 <= k < out@.len() && out@[k] == fd;
                        assert(before[k] == fd);
                        assert(before.contains(fd));
                    }
                    if 0 <= fd < i && self.bits@[fd as int] {
                        assert(before.contains(fd));
                        let k = choose|k: int| 0 <= k < before.len() && before[k] == fd;
                        assert(out@[k] == fd);
                    }
                    if fd == i as i32 {
                        assert(out@[out@.len() - 1] == fd);
                    }
                }
            }
            i = i + 1;
        }
        out
    }
}

/// The first descriptor of `ready`, at or above `low`, that an `fd_set` can
/// hold.
pub open spec fn first_ready_from(ready: Set<i32>, low: i32, fd: i32) -> bool {
    &&& low <= fd
    &&& in_fd_range(fd)
    &&& ready.contains(fd)
    &&& forall|g: i32| low <= g < fd ==> !#[trigger] ready.contains(g)
}

/// What the server does with the descriptor it picked.
#[derive(Clone, Copy, Debug, PartialEq, Eq, Structural)]
pub enum SelectEvent {
    /// The listening socket is ready: accept a connection.
    NewConnection,
    /// A client socket is ready: look at how many bytes are pending on it.
    ClientReady(i32),
}

/// What the server does with a ready client, given the bytes pending on it.
#[derive(Clone, Copy, Debug, PartialEq, Eq, Structural)]
pub enum ClientAction {
    /// No bytes pending: the client has hung up; close its socket.
    Close(i32),
    /// Read the pending bytes and write them back.
    Echo(i32, usize),
}

/// The state of a `select` echo server: the listening socket and the set of
/// descriptors it watches.
pub struct SelectServer {
    server_fd: i32,
    watched: FdSet,
}

impl SelectServer {
    /// The listening socket.
    pub closed spec fn spec_server_fd(&self) -> i32 {
        self.server_fd
    }

    /// The descriptors watched.
    pub closed spec fn spec_watched(&self) -> Set<i32> {
        self.watched@
    }

    /// The clients being served: the watched descriptors other than the
    /// listening socket.
    pub open spec fn spec_clients(&self) -> Set<i32> {
        self.spec_watched().remove(self.spec_server_fd())
    }

    /// The shape the server keeps: its listening socket fits an `fd_set` and
    /// is always watched, so that the watched set is the listening socket
    /// together with the clients.
    pub open spec fn wf(&self) -> bool {
        &&& in_fd_range(self.spec_server_fd())
        &&& self.spec_watched().contains(self.spec_server_fd())
    }

    /// A server that watches only its listening socket `server_fd`.
    pub fn new(server_fd: i32) -> (r: SelectServer)
        requires
            in_fd_range(server_fd),
        ensures
            r.spec_server_fd() == server_fd,
            r.spec_watched() == Set::<i32>::empty().insert(server_fd),
            r.wf(),
            r.spec_clients() == Set::<i32>::empty(),
    {
        let mut watched = FdSet::new();
        watched.insert(server_fd);
        let r = SelectServer { server_fd, watched };
        assert(r.spec_clients() =~= Set::<i32>::empty());
        r
    }

    /// The listening socket.
    pub fn server_fd(&self) -> (r: i32)
        ensures
            r == self.spec_server_fd(),
    {
        self.server_fd
    }

    /// The set to hand to `select` (a copy, since `select` overwrites it).
    pub fn watched(&self) -> (r: &FdSet)
        ensures
            r@ == self.spec_watched(),
    {
        &self.watched
    }

    /// Picks the descriptor to handle after `select` reported `ready`: the
    /// lowest ready one at or above the listening socket, if any.
    pub fn next_event(&self, ready: &FdSet) -> (r: Option<SelectEvent>)
        requires
            0 <= self.spec_server_fd(),
        ensures
            match r {
                Some(SelectEvent::NewConnection) => first_ready_from(
                    ready@,
                    self.spec_server_fd(),
                    self.spec_server_fd(),
                ),
                Some(SelectEvent::ClientReady(fd)) => fd != self.spec_server_fd()
                    && first_ready_from(ready@, self.spec_server_fd(), fd),
                None => forall|g: i32|
                    self.spec_server_fd() <= g && #[trigger] in_fd_range(g) ==> !ready@.contains(g),
            },
            ready@.subset_of(self.spec_watched()) ==> (r matches Some(SelectEvent::ClientReady(fd))
                ==> self.spec_clients().contains(fd)),
    {
        let limit: i32 = fd_setsize() as i32;
        if self.server_fd >= limit {
            return None;
        }
        let mut fd: i32 = self.server_fd;
        while fd < limit
            invariant
                0 <= self.server_fd <= fd <= limit,
                limit == spec_fd_setsize(),
                forall|g: i32| self.server_fd <= g < fd ==> !#[trigger] ready@.contains(g),
            decreases limit - fd,
        {
            if ready.contains(fd) {
                if fd == self.server_fd {
                    return Some(SelectEvent::NewConnection);
                }
                return Some(SelectEvent::ClientReady(fd));
            }
            fd = fd + 1;
        }
        None
    }

    /// Starts watching the newly accepted client `client_fd`.
    pub fn add_client(&mut self, client_fd: i32)
        requires
            in_fd_range(client_fd),
            client_fd != old(self).spec_server_fd(),
        ensures
            final(self).spec_server_fd() == old(self).spec_server_fd(),
            final(self).spec_watched() == old(self).spec_watched().insert(client_fd),
            final(self).spec_clients() == old(self).spec_clients().insert(client_fd),
            old(self).wf() ==> final(self).wf(),
    {
        self.watched.insert(client_fd);
        assert(self.spec_clients() =~= old(self).spec_clients().insert(client_fd));
    }

    /// Decides what to do with the ready client `fd` that has `pending`
    /// bytes waiting; a client that has hung up stops being watched.
    pub fn client_step(&mut self, fd: i32, pending: usize) -> (r: ClientAction)
        requires
            in_fd_range(fd),
            fd != old(self).spec_server_fd(),
        ensures
            pending == 0 ==> final(self).spec_clients() == old(self).spec_clients().remove(fd),
            pending != 0 ==> final(self).spec_clients() == old(self).spec_clients(),
            old(self).wf() ==> final(self).wf(),
            final(self).spec_server_fd() == old(self).spec_server_fd(),
            pending == 0 ==> r == ClientAction::Close(fd) && final(self).spec_watched() == old(
                self,
            ).spec_watched().remove(fd),
            pending != 0 ==> r == ClientAction::Echo(fd, pending) && final(self).spec_watched()
                == old(self).spec_watched(),
    {
        if pending == 0 {
            self.watched.remove(fd);
            assert(self.spec_clients() =~= old(self).spec_clients().remove(fd));
            ClientAction::Close(fd)
        } else {
            ClientAction::Echo(fd, pending)
        }
    }
}

/// Throughout the server's life the watched set is exactly the listening
/// socket together with the clients accepted and not yet closed; a closed
/// client is not among the clients, so `next_event` never picks it again.
pub proof fn lemma_watched_is_listener_and_clients(server: SelectServer, closed: i32)
    requires
        server.wf(),
        !server.spec_clients().contains(closed),
    ensures
        server.spec_watched() == server.spec_clients().insert(server.spec_server_fd()),
        !server.spec_watched().contains(closed) || closed == server.spec_server_fd(),
{
    assert(server.spec_watched() =~= server.spec_clients().insert(server.spec_server_fd()));
}

/// A client closed for having no bytes pending is never picked again: once
/// it has left the clients, no ready set that `select` can report (one
/// within the watched descriptors) makes it the first ready client.
pub proof fn lemma_closed_client_never_picked(server: SelectServer, ready: Set<i32>, closed: i32)
    requires
        server.wf(),
        !server.spec_clients().contains(closed),
        ready.subset_of(server.spec_watched()),
    ensures
        forall|fd: i32|
            fd != server.spec_server_fd() && #[trigger] first_ready_from(
                ready,
                server.spec_server_fd(),
                fd,
            ) ==> fd != closed,
{
    assert forall|fd: i32|
        fd != server.spec_server_fd() && #[trigger] first_ready_from(
            ready,
            server.spec_server_fd(),
            fd,
        ) implies fd != closed by {
        assert(server.spec_watched().contains(fd));
        assert(server.spec_clients().contains(fd));
    }
}

} // verus!
