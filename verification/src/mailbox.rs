//! The receiving end of a queue channel.

use crate::address::Address;
use crate::channel::{new_channel, new_unbounded_channel, Consumer};
use crate::envelope::Envelope;
use crate::message::Message;
use std::task::Poll;
use vstd::prelude::*;

verus! {

/// Returns a new mailbox and address.
///
/// The mailbox is bounded: an address whose sends have filled it waits in
/// `Address::poll_flush` until the mailbox has given out an envelope. The
/// capacity has to stay under a quarter of the address space.
pub fn mailbox<T: Message>(capacity: usize) -> (pair: (Mailbox<T>, Address<T>))
    requires
        capacity < usize::MAX / 4,
    ensures
        pair.0.bounded(),
        pair.1.bounded(),
        !pair.0.ended(),
        !pair.1.closed(),
{
    let (sender, recv) = new_channel(capacity);

    (Mailbox { recv }, Address::new(sender))
}

/// Returns a new unbounded mailbox and address.
///
/// Nothing that is sent to it ever waits for room.
pub fn unbounded_mailbox<T: Message>() -> (pair: (Mailbox<T>, Address<T>))
    ensures
        !pair.0.bounded(),
        !pair.1.bounded(),
        !pair.0.ended(),
        !pair.1.closed(),
{
    let (sender, recv) = new_unbounded_channel();

    (Mailbox { recv }, Address::new(sender))
}

/// A mailbox.
#[verifier::reject_recursive_types(T)]
pub struct Mailbox<T: Message> {
    recv: Consumer<T>,
}

impl<T: Message> Mailbox<T> {
    /// Whether the mailbox is bounded.
    pub closed spec fn bounded(&self) -> bool {
        self.recv.is_bounded()
    }

    /// Whether the mailbox has ended: it has answered a call of
    /// [`Mailbox::poll_next`] with `Ready(None)`.
    pub closed spec fn ended(&self) -> bool {
        self.recv.has_ended()
    }

    /// Asks for the next envelope: `Ready(Some(..))` with one that was
    /// queued, `Ready(None)` once the mailbox is closed and empty, `Pending`
    /// while it is empty and still open.
    ///
    /// Which of them it is depends on the senders, until the mailbox has
    /// ended. It ends for good: once it has answered `Ready(None)`, it
    /// answers nothing else.
    pub fn poll_next(&mut self, cx: &mut std::task::Context<'_>) -> (r: Poll<Option<Envelope<T>>>)
        ensures
            final(self).bounded() == old(self).bounded(),
            old(self).ended() ==> r matches Poll::Ready(None),
            final(self).ended() == (r matches Poll::Ready(None)),
    {
        self.recv.poll_next(cx)
    }
}

/// Puts what a stream of messages gave next into an envelope, for a mailbox
/// made of that stream: a message travels in an envelope that expects no
/// response, and the end of the stream and a pending answer stay what they
/// are.
pub fn enveloped<M: Message>(next: Poll<Option<M>>) -> (r: Poll<Option<Envelope<M>>>)
    ensures
        match next {
            Poll::Pending => r is Pending,
            Poll::Ready(None) => r == Poll::Ready(None::<Envelope<M>>),
            Poll::Ready(Some(msg)) => r matches Poll::Ready(Some(envelope)) && {
                &&& envelope.message() == msg
                &&& !envelope.expects_response()
            },
        },
{
    match next {
        Poll::Pending => Poll::Pending,
        Poll::Ready(None) => Poll::Ready(None),
        Poll::Ready(Some(msg)) => Poll::Ready(Some(Envelope::new(msg))),
    }
}

/// An extension trait which converts a stream of messages into a mailbox.
///
/// The adapter holds the stream; [`enveloped`] is what turns each of its
/// messages into an envelope.
pub trait IntoMailbox: Sized {
    /// Convert self into a mailbox.
    fn into_mailbox(self) -> IntoMail<Self>;
}

impl<T: Unpin> IntoMailbox for T {
    fn into_mailbox(self) -> (mail: IntoMail<Self>)
        ensures
            mail@ == self,
    {
        IntoMail(self)
    }
}

/// Adapter returned from [`IntoMailbox::into_mailbox`].
///
/// Used to convert a stream of messages into a mailbox.
pub struct IntoMail<T>(T);

impl<T> View for IntoMail<T> {
    type V = T;

    closed spec fn view(&self) -> T {
        self.0
    }
}

impl<T> IntoMail<T> {
    /// Returns the inner stream.
    pub fn to_inner(self) -> (inner: T)
        ensures
            inner == self@,
    {
        self.0
    }

    /// Returns a reference to the inner stream.
    pub fn inner_ref(&self) -> (inner: &T)
        ensures
            *inner == self@,
    {
        &self.0
    }

    /// Returns a mutable reference to the inner stream.
    pub fn inner_mut(&mut self) -> (inner: &mut T)
        ensures
            *inner == old(self)@,
            final(self)@ == *final(inner),
    {
        &mut self.0
    }
}

} // verus!
