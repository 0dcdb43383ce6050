//! The command channel: a bounded FIFO queue that decouples command
//! producers (the button classifier, and any other trigger) from the
//! single dispatch consumer.
//!
//! The queue itself is `embassy_sync::channel::Channel`, which hands
//! out its non-blocking interface through `&self` and interior
//! mutability; contracts here must relate the queue before and after
//! a call, so the channel is held in a private field of a struct that
//! Verus treats as opaque, and every access goes through a wrapper
//! whose contract speaks of [`queued`], the sequence of commands the
//! queue holds in arrival order.
//!
//! A full queue refuses a new command rather than dropping one: the
//! caller that wants blocking-send behaviour retries (suspending in
//! between) until a receive has freed a slot.

use vstd::prelude::*;
use embassy_sync::blocking_mutex::raw::NoopRawMutex;
use embassy_sync::channel::Channel;
use crate::hpd::HpdCommand;

verus! {

/// Capacity of the command queue: at most this many commands wait at
/// any time; a further send is held back until a slot frees.
pub const COMMAND_QUEUE_CAPACITY: usize = 4;

/// Bounded FIFO queue of commands awaiting dispatch.
#[verifier::external_body]
pub struct CommandChannel {
    inner: Channel<NoopRawMutex, HpdCommand, 4>,
}

/// The commands the queue holds, oldest first.
pub uninterp spec fn queued(ch: CommandChannel) -> Seq<HpdCommand>;

impl CommandChannel {
    /// Relies on embassy_sync::channel::Channel::new: the backing
    /// deque starts empty.
    #[verifier::external_body]
    pub fn new() -> (ch: CommandChannel)
        ensures
            queued(ch) == Seq::<HpdCommand>::empty(),
    {
        CommandChannel { inner: Channel::new() }
    }

    /// Relies on embassy_sync::channel::Channel::len: the number of
    /// messages the backing deque holds.
    #[verifier::external_body]
    pub fn len(&self) -> (n: usize)
        ensures
            n == queued(*self).len(),
    {
        self.inner.len()
    }

    /// Relies on embassy_sync::channel::Channel::try_send: push onto
    /// the back of the backing deque, which succeeds exactly when the
    /// queue holds fewer messages than its capacity and otherwise
    /// returns the message in `TrySendError::Full`, leaving the queue
    /// unchanged.
    #[verifier::external_body]
    pub fn try_send(&mut self, cmd: HpdCommand) -> (ok: bool)
        ensures
            ok == (queued(*old(self)).len() < COMMAND_QUEUE_CAPACITY),
            ok ==> queued(*final(self)) == queued(*old(self)).push(cmd),
            !ok ==> queued(*final(self)) == queued(*old(self)),
    {
        self.inner.try_send(cmd).is_ok()
    }

    /// Relies on embassy_sync::channel::Channel::try_receive: pop the
    /// front of the backing deque, or `TryReceiveError::Empty` when
    /// the queue is empty, leaving it unchanged.
    #[verifier::external_body]
    pub fn try_receive(&mut self) -> (r: Option<HpdCommand>)
        ensures
            match r {
                Some(cmd) => queued(*old(self)).len() > 0 && cmd == queued(*old(self))[0]
                    && queued(*final(self)) == queued(*old(self)).drop_first(),
                None => queued(*old(self)).len() == 0 && queued(*final(self)) == queued(
                    *old(self),
                ),
            },
    {
        match self.inner.try_receive() {
            Ok(cmd) => Some(cmd),
            Err(_) => None,
        }
    }
}

} // verus!
