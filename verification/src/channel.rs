//! The shutdown channel: one slot between one sender and one receiver.
//!
//! A `Channel` is the state the two ends share. Its operations never wait:
//! where a blocking channel would suspend the caller they answer `Full` or
//! `Empty`, and the host that owns the lock waits and asks again.

use vstd::prelude::*;

verus! {

/// The number of values the channel holds at once.
pub const CAPACITY: usize = 1;

/// Why a value was not accepted.
#[derive(Clone, Copy, Debug, PartialEq, Eq, Structural)]
pub enum SendError {
    /// One of the two ends has been dropped; the value is handed to nobody.
    ChannelClosed,
    /// The slot is occupied; a blocking sender would wait here.
    Full,
}

/// Why no value was handed out.
#[derive(Clone, Copy, Debug, PartialEq, Eq, Structural)]
pub enum RecvError {
    /// The slot is empty and the sender is gone, or the receiving end itself
    /// has been dropped.
    ChannelClosed,
    /// The slot is empty and the sender still lives; a blocking receiver
    /// would wait here.
    Empty,
}

/// The channel as a mathematical value: what is queued, oldest first, and
/// which ends are still held.
pub struct ChannelModel {
    pub queue: Seq<i32>,
    pub sender_open: bool,
    pub receiver_open: bool,
}

impl ChannelModel {
    /// A channel just created: nothing queued, both ends held.
    pub open spec fn fresh() -> ChannelModel {
        ChannelModel { queue: Seq::empty(), sender_open: true, receiver_open: true }
    }

    /// The queue never exceeds the capacity.
    pub open spec fn bounded(self) -> bool {
        self.queue.len() <= CAPACITY
    }

    /// Sending `value`: refused as closed when either end is gone, as full
    /// when the slot is taken, and queued otherwise.
    pub open spec fn send(self, value: i32) -> (ChannelModel, Result<(), SendError>) {
        if !self.sender_open || !self.receiver_open {
            (self, Err(SendError::ChannelClosed))
        } else if self.queue.len() >= CAPACITY {
            (self, Err(SendError::Full))
        } else {
            (ChannelModel { queue: self.queue.push(value), ..self }, Ok(()))
        }
    }

    /// Receiving: the oldest queued value if there is one, even after the
    /// sender has gone; otherwise closed when the sender is gone, else empty.
    /// A dropped receiving end receives nothing.
    pub open spec fn recv(self) -> (ChannelModel, Result<i32, RecvError>) {
        if !self.receiver_open {
            (self, Err(RecvError::ChannelClosed))
        } else if self.queue.len() > 0 {
            (ChannelModel { queue: self.queue.drop_first(), ..self }, Ok(self.queue[0]))
        } else if !self.sender_open {
            (self, Err(RecvError::ChannelClosed))
        } else {
            (self, Err(RecvError::Empty))
        }
    }

    /// The sending end is dropped; what is queued stays queued.
    pub open spec fn drop_sender(self) -> ChannelModel {
        ChannelModel { sender_open: false, ..self }
    }

    /// The receiving end is dropped; what is queued is never read.
    pub open spec fn drop_receiver(self) -> ChannelModel {
        ChannelModel { receiver_open: false, ..self }
    }
}

/// The shared state of a capacity-one channel of `i32`.
#[derive(Debug)]
pub struct Channel {
    slot: Option<i32>,
    sender_open: bool,
    receiver_open: bool,
}

impl View for Channel {
    type V = ChannelModel;

    closed spec fn view(&self) -> ChannelModel {
        ChannelModel {
            queue: match self.slot {
                Some(value) => seq![value],
                None => Seq::empty(),
            },
            sender_open: self.sender_open,
            receiver_open: self.receiver_open,
        }
    }
}

impl Channel {
    /// Creates the linked pair's shared state: empty, both ends held.
    pub fn create() -> (channel: Channel)
        ensures
            channel@ == ChannelModel::fresh(),
    {
        Channel { slot: None, sender_open: true, receiver_open: true }
    }

    /// Offers `value` to the slot without waiting.
    pub fn send(&mut self, value: i32) -> (outcome: Result<(), SendError>)
        ensures
            (final(self)@, outcome) == old(self)@.send(value),
    {
        if !self.sender_open || !self.receiver_open {
            Err(SendError::ChannelClosed)
        } else if self.slot.is_some() {
            Err(SendError::Full)
        } else {
            self.slot = Some(value);
            assert(self@.queue =~= old(self)@.queue.push(value));
            Ok(())
        }
    }

    /// Takes the queued value, if any, without waiting.
    pub fn recv(&mut self) -> (outcome: Result<i32, RecvError>)
        ensures
            (final(self)@, outcome) == old(self)@.recv(),
    {
        if !self.receiver_open {
            return Err(RecvError::ChannelClosed);
        }
        match self.slot {
            Some(value) => {
                self.slot = None;
                assert(self@.queue =~= old(self)@.queue.drop_first());
                Ok(value)
            },
            None => {
                if !self.sender_open {
                    Err(RecvError::ChannelClosed)
                } else {
                    Err(RecvError::Empty)
                }
            },
        }
    }

    /// Records that the sending end has been dropped.
    pub fn drop_sender(&mut self)
        ensures
            final(self)@ == old(self)@.drop_sender(),
    {
        self.sender_open = false;
    }

    /// Records that the receiving end has been dropped.
    pub fn drop_receiver(&mut self)
        ensures
            final(self)@ == old(self)@.drop_receiver(),
    {
        self.receiver_open = false;
    }

    /// Every channel respects the capacity.
    pub proof fn lemma_bounded(&self)
        ensures
            self@.bounded(),
    {
    }
}

} // verus!
