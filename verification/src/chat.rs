//! The poll-based chat server's state and decisions.
//!
//! The server keeps a table of `pollfd` slots: slot 0 watches the listening
//! socket, and a client whose socket is descriptor `c` sits in slot `c`. A
//! line from one client is sent, prefixed with `(<slot>): `, to every other
//! client in the table.
use crate::consts::{
    pollerr, pollhup, pollin, pollout, spec_pollerr, spec_pollhup, spec_pollin, spec_pollout,
};
use crate::decimal::{
    all_digits, append_decimal, ascii_chars, decimal_bytes, digits_value,
    lemma_decimal_digits_value,
};
use vstd::prelude::*;

verus! {

/// The most clients the chat room holds, whatever the descriptor limit.
pub const CHAT_ROOM_SIZE: usize = 1000;

/// One `pollfd` entry: the descriptor watched (`-1` for none) and the events
/// asked for.
#[derive(Clone, Copy, Debug, PartialEq, Eq, Structural)]
pub struct PollSlot {
    pub fd: i32,
    pub events: i16,
}

/// The events asked for on the listening socket: `POLLIN | POLLERR`.
pub open spec fn server_events() -> i16 {
    spec_pollin() | spec_pollerr()
}

/// The events asked for on a client socket: `POLLIN | POLLERR | POLLHUP`.
pub open spec fn client_events() -> i16 {
    spec_pollin() | spec_pollerr() | spec_pollhup()
}

/// An unused slot.
pub open spec fn empty_slot() -> PollSlot {
    PollSlot { fd: -1i32, events: 0 }
}

/// The number of slots: `min(CHAT_ROOM_SIZE, rlim_cur as usize)`, where
/// `rlim_cur` is the soft limit on open descriptors.
pub fn room_size(rlim_cur: u64) -> (r: usize)
    ensures
        r == if CHAT_ROOM_SIZE <= rlim_cur as usize {
            CHAT_ROOM_SIZE
        } else {
            rlim_cur as usize
        },
{
    let limit = rlim_cur as usize;
    if CHAT_ROOM_SIZE <= limit {
        CHAT_ROOM_SIZE
    } else {
        limit
    }
}

/// What `poll` reported for one slot, tested in the server's order: readable
/// first, then writable, error and hang-up.
#[derive(Clone, Copy, Debug, PartialEq, Eq, Structural)]
pub enum PollEvent {
    /// `POLLIN` is set: a connection to accept or a message to read.
    Readable,
    /// `POLLOUT` is set but not `POLLIN`; the server never asks for it.
    Writable,
    /// `POLLERR` is set, and neither `POLLIN` nor `POLLOUT`.
    Error,
    /// `POLLHUP` is set, and none of the above.
    HangUp,
    /// Nothing to do for this slot.
    Idle,
}

/// Classifies the `revents` of one slot.
pub open spec fn spec_classify_revents(revents: i16) -> PollEvent {
    if revents & spec_pollin() == spec_pollin() {
        PollEvent::Readable
    } else if revents & spec_pollout() == spec_pollout() {
        PollEvent::Writable
    } else if revents & spec_pollerr() == spec_pollerr() {
        PollEvent::Error
    } else if revents & spec_pollhup() == spec_pollhup() {
        PollEvent::HangUp
    } else {
        PollEvent::Idle
    }
}

/// Classifies the `revents` of one slot.
pub fn classify_revents(revents: i16) -> (r: PollEvent)
    ensures
        r == spec_classify_revents(revents),
{
    let pin = pollin();
    let pout = pollout();
    let perr = pollerr();
    let phup = pollhup();
    if revents & pin == pin {
        PollEvent::Readable
    } else if revents & pout == pout {
        PollEvent::Writable
    } else if revents & perr == perr {
        PollEvent::Error
    } else if revents & phup == phup {
        PollEvent::HangUp
    } else {
        PollEvent::Idle
    }
}

/// What became of a newly accepted client.
#[derive(Clone, Copy, Debug, PartialEq, Eq, Structural)]
pub enum JoinOutcome {
    /// The client's descriptor is past the table: the connection is closed.
    Rejected,
    /// The client now sits in the slot of its descriptor.
    Joined,
}

/// The descriptors that a message from slot `sender` goes to, in slot order:
/// every used slot but the sender's and the listening socket's.
pub open spec fn spec_recipients(slots: Seq<PollSlot>, server_fd: i32, sender: int) -> Seq<i32>
    decreases slots.len(),
{
    if slots.len() == 0 {
        Seq::empty()
    } else {
        let prev = spec_recipients(slots.drop_last(), server_fd, sender);
        let j = slots.len() - 1;
        let fd = slots.last().fd;
        if fd == -1 || fd == server_fd || j == sender {
            prev
        } else {
            prev.push(fd)
        }
    }
}

/// The text broadcast for a message `data` from slot `sender`:
/// `(<sender>): ` followed by the message.
pub open spec fn spec_chat_message(sender: nat, data: Seq<u8>) -> Seq<u8> {
    seq![40u8] + decimal_bytes(sender) + seq![41u8, 58u8, 32u8] + data
}

/// Builds the text broadcast for a message `data` from slot `sender`.
pub fn chat_message(sender: usize, data: &[u8]) -> (r: Vec<u8>)
    ensures
        r@ == spec_chat_message(sender as nat, data@),
{
    let mut out: Vec<u8> = Vec::new();
    out.push(40u8);
    append_decimal(&mut out, sender as u64);
    out.push(41u8);
    out.push(58u8);
    out.push(32u8);
    let ghost head = out@;
    let mut i: usize = 0;
    while i < data.len()
        invariant
            i <= data.len(),
            out@ == head + data@.take(i as int),
        decreases data.len() - i,
    {
        out.push(data[i]);
        i = i + 1;
        assert(out@ =~= head + data@.take(i as int));
    }
    assert(data@.take(data.len() as int) =~= data@);
    assert(out@ =~= spec_chat_message(sender as nat, data@));
    out
}

/// The shape of the slot table that the server keeps: at least one slot,
/// slot 0 watches the listening socket, and every other slot is unused or
/// holds the client whose descriptor is its own index.
pub open spec fn slots_wf(slots: Seq<PollSlot>, server_fd: i32) -> bool {
    &&& slots.len() >= 1
    &&& slots[0].fd == server_fd
    &&& forall|i: int| 1 <= i < slots.len() ==> #[trigger] slots[i].fd == -1 || slots[i].fd == i
}

/// What the server does with one slot after `poll` returned.
#[derive(Clone, Copy, Debug, PartialEq, Eq, Structural)]
pub enum SlotAction {
    /// The listening socket is readable: accept a client and seat it.
    Accept,
    /// A client socket is readable: receive from it.
    Receive(i32),
    /// `POLLOUT` without `POLLIN`: never asked for, so never expected.
    Writable,
    /// `POLLERR` on the slot: the server stops.
    Error,
    /// `POLLHUP` on the slot: the server stops.
    HangUp,
    /// Nothing to do for this slot.
    Idle,
}

/// The action for slot `i` with `revents`, in a table whose listening
/// socket is `server_fd`.
pub open spec fn spec_slot_action(
    slots: Seq<PollSlot>,
    server_fd: i32,
    i: int,
    revents: i16,
) -> SlotAction {
    match spec_classify_revents(revents) {
        PollEvent::Readable => if slots[i].fd == server_fd {
            SlotAction::Accept
        } else {
            SlotAction::Receive(slots[i].fd)
        },
        PollEvent::Writable => SlotAction::Writable,
        PollEvent::Error => SlotAction::Error,
        PollEvent::HangUp => SlotAction::HangUp,
        PollEvent::Idle => SlotAction::Idle,
    }
}

/// What follows a receive on a client slot.
#[derive(Debug)]
pub enum ReceiveStep {
    /// Nothing was received: the client has left; its slot is emptied and
    /// this descriptor is to be closed.
    Left(i32),
    /// This message is to be sent to each of these descriptors.
    Broadcast(Vec<u8>, Vec<i32>),
}

/// The table of `pollfd` slots of the chat server.
pub struct ChatRoom {
    slots: Vec<PollSlot>,
    server_fd: i32,
}

impl View for ChatRoom {
    type V = Seq<PollSlot>;

    closed spec fn view(&self) -> Seq<PollSlot> {
        self.slots@
    }
}

impl ChatRoom {
    /// The listening socket's descriptor.
    pub closed spec fn spec_server_fd(&self) -> i32 {
        self.server_fd
    }

    /// A table of `nfds` slots, all unused but slot 0, which watches the
    /// listening socket `server_fd` for `POLLIN | POLLERR`.
    pub fn new(nfds: usize, server_fd: i32) -> (r: ChatRoom)
        requires
            nfds >= 1,
        ensures
            r@.len() == nfds,
            r@[0] == (PollSlot { fd: server_fd, events: server_events() }),
            forall|i: int| 1 <= i < nfds ==> #[trigger] r@[i] == empty_slot(),
            r.spec_server_fd() == server_fd,
            slots_wf(r@, r.spec_server_fd()),
    {
        let mut slots: Vec<PollSlot> = Vec::new();
        let mut i: usize = 0;
        while i < nfds
            invariant
                i <= nfds,
                slots@.len() == i,
                forall|j: int| 0 <= j < i ==> #[trigger] slots@[j] == empty_slot(),
            decreases nfds - i,
        {
            slots.push(PollSlot { fd: -1i32, events: 0 });
            i = i + 1;
        }
        let events = pollin() | pollerr();
        slots.set(0, PollSlot { fd: server_fd, events });
        let r = ChatRoom { slots, server_fd };
        assert forall|i: int| 1 <= i < r@.len() implies #[trigger] r@[i].fd == -1 || r@[i].fd
            == i by {
            assert(r@[i] == empty_slot());
        }
        r
    }

    /// The number of slots.
    pub fn len(&self) -> (r: usize)
        ensures
            r == self@.len(),
    {
        self.slots.len()
    }

    /// The listening socket's descriptor.
    pub fn server_fd(&self) -> (r: i32)
        ensures
            r == self.spec_server_fd(),
    {
        self.server_fd
    }

    /// The slot at index `i`.
    pub fn slot(&self, i: usize) -> (r: PollSlot)
        requires
            i < self@.len(),
        ensures
            r == self@[i as int],
    {
        self.slots[i]
    }

    /// Whether slot `i` watches the listening socket, so that a readable
    /// event there is a connection to accept.
    pub fn is_listening_slot(&self, i: usize) -> (r: bool)
        requires
            i < self@.len(),
        ensures
            r == (self@[i as int].fd == self.spec_server_fd()),
    {
        self.slots[i].fd == self.server_fd
    }

    /// Seats a newly accepted client with descriptor `client_fd` in the slot
    /// of that number, watching `POLLIN | POLLERR | POLLHUP`; a descriptor
    /// greater than the number of slots is turned away.
    pub fn join(&mut self, client_fd: i32) -> (r: JoinOutcome)
        requires
            client_fd >= 0,
            client_fd as int != old(self)@.len(),
        ensures
            final(self).spec_server_fd() == old(self).spec_server_fd(),
            client_fd as int > old(self)@.len() ==> r == JoinOutcome::Rejected && final(self)@
                == old(self)@,
            client_fd as int <= old(self)@.len() ==> r == JoinOutcome::Joined && final(self)@
                == old(self)@.update(
                client_fd as int,
                PollSlot { fd: client_fd, events: client_events() },
            ),
            final(self)@.len() == old(self)@.len(),
            slots_wf(old(self)@, old(self).spec_server_fd()) && client_fd != 0 ==> slots_wf(
                final(self)@,
                final(self).spec_server_fd(),
            ),
    {
        let index = client_fd as usize;
        if index > self.slots.len() {
            return JoinOutcome::Rejected;
        }
        let events = pollin() | pollerr() | pollhup();
        self.slots.set(index, PollSlot { fd: client_fd, events });
        JoinOutcome::Joined
    }

    /// Empties slot `i` after its client has hung up, and gives back the
    /// descriptor to close.
    pub fn leave(&mut self, i: usize) -> (r: i32)
        requires
            i < old(self)@.len(),
        ensures
            r == old(self)@[i as int].fd,
            final(self).spec_server_fd() == old(self).spec_server_fd(),
            final(self)@ == old(self)@.update(
                i as int,
                PollSlot { fd: -1i32, events: old(self)@[i as int].events },
            ),
            final(self)@.len() == old(self)@.len(),
            slots_wf(old(self)@, old(self).spec_server_fd()) && i != 0 ==> slots_wf(
                final(self)@,
                final(self).spec_server_fd(),
            ),
    {
        let slot = self.slots[i];
        self.slots.set(i, PollSlot { fd: -1i32, events: slot.events });
        slot.fd
    }

    /// Decides what to do with slot `i`, whose `revents` `poll` reported.
    pub fn slot_action(&self, i: usize, revents: i16) -> (r: SlotAction)
        requires
            i < self@.len(),
        ensures
            r == spec_slot_action(self@, self.spec_server_fd(), i as int, revents),
            slots_wf(self@, self.spec_server_fd()) ==> (r matches SlotAction::Receive(fd) ==> i
                != 0 && (fd == -1 || fd == i as i32)),
    {
        match classify_revents(revents) {
            PollEvent::Readable => {
                if self.slots[i].fd == self.server_fd {
                    SlotAction::Accept
                } else {
                    SlotAction::Receive(self.slots[i].fd)
                }
            },
            PollEvent::Writable => SlotAction::Writable,
            PollEvent::Error => SlotAction::Error,
            PollEvent::HangUp => SlotAction::HangUp,
            PollEvent::Idle => SlotAction::Idle,
        }
    }

    /// Handles what a receive on client slot `i` gave (`data`, empty when the
    /// client has closed): a client that left gives up its slot; otherwise
    /// the message, prefixed with the slot, goes to every other client.
    pub fn receive(&mut self, i: usize, data: &[u8]) -> (r: ReceiveStep)
        requires
            i < old(self)@.len(),
        ensures
            final(self).spec_server_fd() == old(self).spec_server_fd(),
            data@.len() == 0 ==> (r matches ReceiveStep::Left(fd) && fd == old(self)@[i as int].fd)
                && final(self)@ == old(self)@.update(
                i as int,
                PollSlot { fd: -1i32, events: old(self)@[i as int].events },
            ),
            data@.len() > 0 ==> (r matches ReceiveStep::Broadcast(msg, to) && msg@
                == spec_chat_message(i as nat, data@) && to@ == spec_recipients(
                old(self)@,
                old(self).spec_server_fd(),
                i as int,
            )) && final(self)@ == old(self)@,
            slots_wf(old(self)@, old(self).spec_server_fd()) && i != 0 ==> slots_wf(
                final(self)@,
                final(self).spec_server_fd(),
            ),
    {
        if data.len() == 0 {
            let fd = self.leave(i);
            ReceiveStep::Left(fd)
        } else {
            let msg = chat_message(i, data);
            let to = self.recipients(i);
            ReceiveStep::Broadcast(msg, to)
        }
    }

    /// The descriptors that a message read from slot `sender` is sent to.
    pub fn recipients(&self, sender: usize) -> (r: Vec<i32>)
        ensures
            r@ == spec_recipients(self@, self.spec_server_fd(), sender as int),
    {
        let mut out: Vec<i32> = Vec::new();
        let mut k: usize = 0;
        while k < self.slots.len()
            invariant
                k <= self.slots@.len(),
                out@ == spec_recipients(self.slots@.take(k as int), self.server_fd, sender as int),
            decreases self.slots.len() - k,
        {
            let fd = self.slots[k].fd;
            let ghost prefix = self.slots@.take(k + 1);
            assert(prefix.drop_last() =~= self.slots@.take(k as int));
            assert(prefix.last() == self.slots@[k as int]);
            if fd != -1 && fd != self.server_fd && k != sender {
                out.push(fd);
            }
            k = k + 1;
        }
        assert(self.slots@.take(self.slots.len() as int) =~= self.slots@);
        out
    }
}

/// A descriptor receives a broadcast from slot `sender` exactly when some
/// other slot holds it, and it is neither unused (`-1`) nor the listening
/// socket.
pub proof fn lemma_recipients_contains(slots: Seq<PollSlot>, server_fd: i32, sender: int, fd: i32)
    ensures
        spec_recipients(slots, server_fd, sender).contains(fd) <==> (fd != -1 && fd != server_fd
            && exists|j: int| 0 <= j < slots.len() && j != sender && #[trigger] slots[j].fd == fd),
    decreases slots.len(),
{
    if slots.len() > 0 {
        let prev = slots.drop_last();
        lemma_recipients_contains(prev, server_fd, sender, fd);
        let last = slots.len() - 1;
        let last_fd = slots.last().fd;
        let r = spec_recipients(slots, server_fd, sender);
        let p = spec_recipients(prev, server_fd, sender);
        assert forall|j: int| 0 <= j < prev.len() implies #[trigger] prev[j] == slots[j] by {}
        if last_fd == -1 || last_fd == server_fd || last == sender {
            assert(r == p);
            if exists|j: int| 0 <= j < slots.len() && j != sender && #[trigger] slots[j].fd == fd {
                let j = choose|j: int|
                    0 <= j < slots.len() && j != sender && #[trigger] slots[j].fd == fd;
                if fd != -1 && fd != server_fd {
                    assert(j != last);
                    assert(prev[j].fd == fd);
                }
            }
            if exists|j: int| 0 <= j < prev.len() && j != sender && #[trigger] prev[j].fd == fd {
                let j = choose|j: int|
                    0 <= j < prev.len() && j != sender && #[trigger] prev[j].fd == fd;
                assert(slots[j].fd == fd);
            }
        } else {
            assert(r == p.push(last_fd));
            if r.contains(fd) {
                let k = choose|k: int| 0 <= k < r.len() && r[k] == fd;
                if k < p.len() {
                    assert(p[k] == fd);
                    assert(p.contains(fd));
                    let j = choose|j: int|
                        0 <= j < prev.len() && j != sender && #[trigger] prev[j].fd == fd;
                    assert(slots[j].fd == fd);
                } else {
                    assert(last_fd == fd);
                    assert(slots[last].fd == fd);
                }
            }
            if fd != -1 && fd != server_fd && exists|j: int|
                0 <= j < slots.len() && j != sender && #[trigger] slots[j].fd == fd {
                let j = choose|j: int|
                    0 <= j < slots.len() && j != sender && #[trigger] slots[j].fd == fd;
                if j < last {
                    assert(prev[j].fd == fd);
                    assert(p.contains(fd));
                    let k = choose|k: int| 0 <= k < p.len() && p[k] == fd;
                    assert(r[k] == fd);
                } else {
                    assert(r[r.len() - 1] == fd);
                }
            }
        }
    }
}

/// A client that has just joined (and is not the listening socket) receives
/// every later message from any other slot.
pub proof fn lemma_joined_client_receives(
    before: Seq<PollSlot>,
    server_fd: i32,
    client_fd: i32,
    sender: int,
)
    requires
        0 <= client_fd < before.len(),
        client_fd != server_fd,
        sender != client_fd as int,
    ensures
        spec_recipients(
            before.update(client_fd as int, PollSlot { fd: client_fd, events: client_events() }),
            server_fd,
            sender,
        ).contains(client_fd),
{
    let after = before.update(
        client_fd as int,
        PollSlot { fd: client_fd, events: client_events() },
    );
    assert(after[client_fd as int].fd == client_fd);
    lemma_recipients_contains(after, server_fd, sender, client_fd);
}

/// Once its slot is emptied, a descriptor receives no message unless another
/// slot still holds it.
pub proof fn lemma_left_client_silent(before: Seq<PollSlot>, server_fd: i32, i: int, sender: int)
    requires
        0 <= i < before.len(),
        forall|j: int| 0 <= j < before.len() && j != i ==> #[trigger] before[j].fd != before[i].fd,
    ensures
        !spec_recipients(
            before.update(i, PollSlot { fd: -1i32, events: before[i].events }),
            server_fd,
            sender,
        ).contains(before[i].fd),
{
    let after = before.update(i, PollSlot { fd: -1i32, events: before[i].events });
    let fd = before[i].fd;
    lemma_recipients_contains(after, server_fd, sender, fd);
    if fd != -1 {
        assert forall|j: int| 0 <= j < after.len() && j != sender implies #[trigger] after[j].fd
            != fd by {
            if j != i {
                assert(before[j].fd != fd);
            }
        }
    }
}

/// A message never goes back to its sender's slot, to the listening socket,
/// or to an unused slot.
pub proof fn lemma_recipients_exclude(slots: Seq<PollSlot>, server_fd: i32, sender: int)
    ensures
        !spec_recipients(slots, server_fd, sender).contains(-1i32),
        !spec_recipients(slots, server_fd, sender).contains(server_fd),
        0 <= sender < slots.len() && (forall|j: int|
            0 <= j < slots.len() && j != sender ==> #[trigger] slots[j].fd != slots[sender].fd)
            ==> !spec_recipients(slots, server_fd, sender).contains(slots[sender].fd),
{
    lemma_recipients_contains(slots, server_fd, sender, -1i32);
    lemma_recipients_contains(slots, server_fd, sender, server_fd);
    if 0 <= sender < slots.len() {
        lemma_recipients_contains(slots, server_fd, sender, slots[sender].fd);
    }
}

/// Every byte received is forwarded: the broadcast text is a prefix that
/// depends on the sender alone, followed by all of the message, unchanged.
/// The prefix is `(`, one or more digits that denote the sender's slot,
/// and `): `.
pub proof fn lemma_chat_message_forwards_everything(sender: nat, data: Seq<u8>)
    ensures
        spec_chat_message(sender, data) == spec_chat_message(sender, Seq::<u8>::empty()) + data,
        spec_chat_message(sender, data).len() == spec_chat_message(
            sender,
            Seq::<u8>::empty(),
        ).len() + data.len(),
        spec_chat_message(sender, data).skip(
            spec_chat_message(sender, data).len() - data.len(),
        ) == data,
        spec_chat_message(sender, Seq::<u8>::empty()).len() >= 5,
        spec_chat_message(sender, Seq::<u8>::empty())[0] == 40u8,
        spec_chat_message(sender, Seq::<u8>::empty()).skip(
            spec_chat_message(sender, Seq::<u8>::empty()).len() - 3,
        ) == seq![41u8, 58u8, 32u8],
        all_digits(
            ascii_chars(
                spec_chat_message(sender, Seq::<u8>::empty()).subrange(
                    1,
                    spec_chat_message(sender, Seq::<u8>::empty()).len() - 3,
                ),
            ),
        ),
        digits_value(
            ascii_chars(
                spec_chat_message(sender, Seq::<u8>::empty()).subrange(
                    1,
                    spec_chat_message(sender, Seq::<u8>::empty()).len() - 3,
                ),
            ),
        ) == sender,
{
    let p = spec_chat_message(sender, Seq::<u8>::empty());
    let m = spec_chat_message(sender, data);
    let d = decimal_bytes(sender);
    lemma_decimal_digits_value(sender);
    assert(p =~= seq![40u8] + d + seq![41u8, 58u8, 32u8]);
    assert(m =~= p + data);
    assert(m.skip(m.len() - data.len()) =~= data);
    assert(p.skip(p.len() - 3) =~= seq![41u8, 58u8, 32u8]);
    assert(p.subrange(1, p.len() - 3) =~= d);
}

/// A readable client slot is always read: whatever other bits `revents`
/// carries, `POLLIN` on a slot that is not the listening socket means
/// receiving from that slot's descriptor, and on the listening socket it
/// means accepting.
pub proof fn lemma_readable_slot_is_served(
    slots: Seq<PollSlot>,
    server_fd: i32,
    i: int,
    revents: i16,
)
    requires
        0 <= i < slots.len(),
        revents & 0x1i16 == 0x1i16,
    ensures
        slots[i].fd != server_fd ==> spec_slot_action(slots, server_fd, i, revents)
            == SlotAction::Receive(slots[i].fd),
        slots[i].fd == server_fd ==> spec_slot_action(slots, server_fd, i, revents)
            == SlotAction::Accept,
{
}

/// A slot without `POLLIN` is never read or accepted from: the rest of
/// `revents` is tested for `POLLOUT`, then `POLLERR`, then `POLLHUP`.
pub proof fn lemma_unreadable_slot_is_not_served(
    slots: Seq<PollSlot>,
    server_fd: i32,
    i: int,
    revents: i16,
)
    requires
        0 <= i < slots.len(),
        revents & 0x1i16 != 0x1i16,
    ensures
        revents & 0x4i16 == 0x4i16 ==> spec_slot_action(slots, server_fd, i, revents)
            == SlotAction::Writable,
        revents & 0x4i16 != 0x4i16 && revents & 0x8i16 == 0x8i16 ==> spec_slot_action(
            slots,
            server_fd,
            i,
            revents,
        ) == SlotAction::Error,
        revents & 0x4i16 != 0x4i16 && revents & 0x8i16 != 0x8i16 && revents & 0x10i16
            == 0x10i16 ==> spec_slot_action(slots, server_fd, i, revents) == SlotAction::HangUp,
        revents & 0x4i16 != 0x4i16 && revents & 0x8i16 != 0x8i16 && revents & 0x10i16
            != 0x10i16 ==> spec_slot_action(slots, server_fd, i, revents) == SlotAction::Idle,
{
}

} // verus!
