//! The bookkeeping of the reactor that drives the asynchronous accept loop.
//!
//! A future that finds no connection waiting registers the waker of its task
//! under the listening socket's descriptor; when epoll reports that
//! descriptor ready, the reactor takes the waker out again (so each
//! registration wakes its task once) and wakes the task.
use crate::epoll::IoErrorKind;
use std::collections::HashMap;
use vstd::prelude::*;

verus! {

broadcast use vstd::std_specs::hash::group_hash_axioms;

/// The wakers waiting on descriptors, at most one per descriptor.
pub struct WakerTable<W> {
    wakers: HashMap<i32, W>,
}

impl<W> View for WakerTable<W> {
    type V = Map<i32, W>;

    closed spec fn view(&self) -> Map<i32, W> {
        self.wakers@
    }
}

impl<W> WakerTable<W> {
    /// A table with no waker.
    pub fn new() -> (r: WakerTable<W>)
        ensures
            r@ == Map::<i32, W>::empty(),
    {
        WakerTable { wakers: HashMap::new() }
    }

    /// Files `waker` under `fd`, in place of any waker already there.
    pub fn register(&mut self, fd: i32, waker: W)
        ensures
            final(self)@ == old(self)@.insert(fd, waker),
    {
        self.wakers.insert(fd, waker);
    }

    /// Takes out the waker filed under `fd`, if there is one.
    pub fn take(&mut self, fd: i32) -> (r: Option<W>)
        ensures
            old(self)@.contains_key(fd) ==> r == Some(old(self)@[fd]) && final(self)@ == old(
                self,
            )@.remove(fd),
            !old(self)@.contains_key(fd) ==> r == None::<W> && final(self)@ == old(self)@,
    {
        let r = self.wakers.remove(&fd);
        proof {
            if !old(self)@.contains_key(fd) {
                assert(final(self)@ =~= old(self)@);
            }
        }
        r
    }

    /// The number of wakers waiting.
    pub fn len(&self) -> (r: usize)
        ensures
            r == self@.len(),
    {
        self.wakers.len()
    }
}

/// A waker registered for a descriptor is the one the next event on that
/// descriptor wakes, and it wakes only once: a second event finds nothing.
pub proof fn lemma_register_then_take<W>(table: Map<i32, W>, fd: i32, waker: W)
    ensures
        table.insert(fd, waker).contains_key(fd),
        table.insert(fd, waker)[fd] == waker,
        !table.insert(fd, waker).remove(fd).contains_key(fd),
{
}

/// Registering under one descriptor leaves the wakers of the others alone.
pub proof fn lemma_register_keeps_others<W>(table: Map<i32, W>, fd: i32, waker: W, other: i32)
    requires
        other != fd,
    ensures
        table.insert(fd, waker).contains_key(other) == table.contains_key(other),
        table.contains_key(other) ==> table.insert(fd, waker)[other] == table[other],
{
}

/// What one poll of the accept future does with the result of a
/// non-blocking `accept`.
#[derive(Clone, Copy, Debug, PartialEq, Eq, Structural)]
pub enum AcceptPoll {
    /// A connection was accepted: the future is ready with it.
    Ready,
    /// No connection is waiting: register the task's waker for readability
    /// of the listening socket and return pending.
    RegisterAndWait,
    /// `accept` failed otherwise: the future is ready with the error.
    Failed,
}

/// Decides one poll of the accept future from what `accept` returned
/// (`Ok(())` for a connection, or the kind of error).
pub fn accept_poll(result: Result<(), IoErrorKind>) -> (r: AcceptPoll)
    ensures
        result is Ok ==> r == AcceptPoll::Ready,
        result == Err::<(), IoErrorKind>(IoErrorKind::WouldBlock) ==> r
            == AcceptPoll::RegisterAndWait,
        result == Err::<(), IoErrorKind>(IoErrorKind::Other) ==> r == AcceptPoll::Failed,
{
    match result {
        Ok(()) => AcceptPoll::Ready,
        Err(IoErrorKind::WouldBlock) => AcceptPoll::RegisterAndWait,
        Err(IoErrorKind::Other) => AcceptPoll::Failed,
    }
}

} // verus!
