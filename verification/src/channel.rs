//! The queues from the pane to the compositor thread.
//!
//! The queues are crossbeam channels, and a pane only ever writes to them. They are unbounded, so
//! that a pane never waits, and a message for a compositor that is gone is dropped.

use crate::input::SpikeInput;
use crossbeam_channel::Sender;
use vstd::prelude::*;

verus! {

/// `crossbeam_channel::Sender`, the writing end of a channel. Two equal values are two handles to
/// the same channel.
#[verifier::external_type_specification]
#[verifier::external_body]
#[verifier::reject_recursive_types(T)]
pub struct ExSender<T>(Sender<T>);

/// `Sender::clone`: another handle to the same channel.
pub assume_specification<T>[ <Sender<T> as Clone>::clone ](sender: &Sender<T>) -> (copy: Sender<T>)
    ensures
        copy == *sender,
;

/// How many messages a channel of seat input can hold, or `None` if it is unbounded, as
/// `Sender::capacity` tells it.
pub uninterp spec fn seat_limit(tx: Sender<SpikeInput>) -> Option<usize>;

/// How many messages a channel of pool slots can hold, or `None` if it is unbounded, as
/// `Sender::capacity` tells it.
pub uninterp spec fn release_limit(tx: Sender<u64>) -> Option<usize>;

/// `Sender::capacity` on a channel of seat input: the number of messages that it was made to hold,
/// and `None` for an unbounded one. All handles to one channel give the same answer.
#[verifier::external_body]
pub(crate) fn seat_capacity(tx: &Sender<SpikeInput>) -> (limit: Option<usize>)
    ensures
        limit == seat_limit(*tx),
{
    tx.capacity()
}

/// `Sender::capacity` on a channel of pool slots: the number of messages that it was made to hold,
/// and `None` for an unbounded one. All handles to one channel give the same answer.
#[verifier::external_body]
pub(crate) fn release_capacity(tx: &Sender<u64>) -> (limit: Option<usize>)
    ensures
        limit == release_limit(*tx),
{
    tx.capacity()
}

/// What a pane sends to the compositor.
pub trait Message: Sized {
    /// How many messages the channel can hold, or `None` if it is unbounded.
    spec fn limit(tx: Sender<Self>) -> Option<usize>;
}

impl Message for SpikeInput {
    open spec fn limit(tx: Sender<SpikeInput>) -> Option<usize> {
        seat_limit(tx)
    }
}

impl Message for u64 {
    open spec fn limit(tx: Sender<u64>) -> Option<usize> {
        release_limit(tx)
    }
}

/// The writing end of an unbounded channel, with the record of what this end was used to send.
#[verifier::reject_recursive_types(T)]
pub struct Outbox<T: Message> {
    tx: Sender<T>,
    offered: Ghost<Seq<T>>,
}

/// What is known of an [`Outbox`]: its channel, and the messages handed to it, oldest first.
#[verifier::ext_equal]
#[verifier::reject_recursive_types(T)]
pub struct OutboxView<T> {
    pub channel: Sender<T>,
    pub offered: Seq<T>,
}

impl<T: Message> View for Outbox<T> {
    type V = OutboxView<T>;

    closed spec fn view(&self) -> OutboxView<T> {
        OutboxView { channel: self.tx, offered: self.offered@ }
    }
}

impl<T> OutboxView<T> {
    /// A handle to `channel` that has not been used.
    pub open spec fn unused(channel: Sender<T>) -> Self {
        OutboxView { channel, offered: Seq::empty() }
    }

    /// The same handle after one more message.
    pub open spec fn with(self, message: T) -> Self {
        OutboxView { channel: self.channel, offered: self.offered.push(message) }
    }
}

impl<T: Message> Outbox<T> {
    #[verifier::type_invariant]
    spec fn unbounded(self) -> bool {
        T::limit(self.tx) is None
    }

    /// Wraps the writing end of an unbounded channel.
    pub(crate) fn new(tx: Sender<T>) -> (outbox: Self)
        requires
            T::limit(tx) is None,
        ensures
            outbox@ == OutboxView::unused(tx),
    {
        Outbox { tx, offered: Ghost(Seq::empty()) }
    }

    /// Another handle to the same channel.
    pub fn sender(&self) -> (tx: Sender<T>)
        ensures
            tx == self@.channel,
            T::limit(tx) is None,
    {
        proof {
            use_type_invariant(self);
        }
        self.tx.clone()
    }

    /// Hands `message` to `Sender::send`, which queues it or, when the compositor has dropped its
    /// end, gives it back to be dropped here. On an unbounded channel it does not wait; on a bounded
    /// one it could wait forever for room, so the channel has to be unbounded.
    ///
    /// The contract records that this message was handed over on this channel. Whether the
    /// compositor is there to take it is not known to the caller.
    #[verifier::external_body]
    fn send(&mut self, message: T)
        requires
            T::limit(old(self)@.channel) is None,
        ensures
            final(self)@ == old(self)@.with(message),
    {
        let _ = self.tx.send(message);
    }

    /// Sends `message`, without waiting.
    pub(crate) fn post(&mut self, message: T)
        ensures
            final(self)@ == old(self)@.with(message),
    {
        proof {
            use_type_invariant(&*self);
        }
        self.send(message);
    }
}

/// An optional handle after one more message: without a handle, nothing happens.
pub open spec fn forwarded<T>(outbox: Option<OutboxView<T>>, message: T) -> Option<OutboxView<T>> {
    match outbox {
        Some(view) => Some(view.with(message)),
        None => None,
    }
}

/// The view behind an optional handle.
pub open spec fn outbox_view<T: Message>(outbox: Option<Outbox<T>>) -> Option<OutboxView<T>> {
    match outbox {
        Some(o) => Some(o@),
        None => None,
    }
}

/// Sends `message` if there is a handle to send it on.
pub(crate) fn forward<T: Message>(outbox: &mut Option<Outbox<T>>, message: T)
    ensures
        outbox_view(*final(outbox)) == forwarded(outbox_view(*old(outbox)), message),
{
    if let Some(o) = outbox {
        o.post(message);
    }
}

/// A queue loses nothing and adds nothing of its own: a new handle has sent nothing, and one more
/// message comes after everything that was sent before it, on the same channel.
pub proof fn law_messages_are_queued_in_order<T>(queue: OutboxView<T>, message: T)
    ensures
        OutboxView::unused(queue.channel).channel == queue.channel,
        OutboxView::unused(queue.channel).offered.len() == 0,
        queue.with(message).channel == queue.channel,
        queue.with(message).offered.len() == queue.offered.len() + 1,
        queue.with(message).offered[queue.offered.len() as int] == message,
        forall|i: int|
            0 <= i < queue.offered.len() ==> #[trigger] queue.with(message).offered[i]
                == queue.offered[i],
{
}

/// Every message is sent where there is a handle to send it on, whatever it says, and where there is
/// none nothing comes of it.
pub proof fn law_every_message_is_forwarded<T>(queue: OutboxView<T>, message: T)
    ensures
        forwarded(None::<OutboxView<T>>, message) is None,
        forwarded(Some(queue), message) matches Some(after) && {
            &&& after.channel == queue.channel
            &&& after.offered.len() == queue.offered.len() + 1
            &&& after.offered[queue.offered.len() as int] == message
            &&& forall|i: int|
                0 <= i < queue.offered.len() ==> #[trigger] after.offered[i] == queue.offered[i]
        },
{
}

/// An optional handle is there in the view exactly if it is there.
pub proof fn law_handles_are_seen<T: Message>(outbox: Outbox<T>)
    ensures
        outbox_view(Some(outbox)) == Some(outbox@),
        outbox_view(None::<Outbox<T>>) is None,
{
}

} // verus!
