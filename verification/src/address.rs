//! The sending end of a queue channel.

use crate::channel::{Disconnected, Producer};
use crate::envelope::Envelope;
use crate::error::Error;
use crate::futures::{MessageFuture, QueueFuture, SendFuture, Wait};
use crate::message::{Message, Wrap};
use std::task::Poll;
use vstd::prelude::*;

verus! {

/// An address which can be used to send messages to a mailbox.
#[derive(Debug)]
#[verifier::reject_recursive_types(T)]
pub struct Address<T: Message> {
    sender: Producer<T>,
}

impl<T: Message> Address<T> {
    /// Whether the mailbox of this address is bounded.
    pub closed spec fn bounded(&self) -> bool {
        self.sender.is_bounded()
    }

    /// Whether the mailbox was closed through this address, or through the
    /// address that this one was cloned from.
    pub closed spec fn closed(&self) -> bool {
        self.sender.is_shut()
    }

    pub(crate) fn new(sender: Producer<T>) -> (address: Self)
        ensures
            address.bounded() == sender.is_bounded(),
            address.closed() == sender.is_shut(),
    {
        Self { sender }
    }

    /// Closes the mailbox with this address.
    ///
    /// What is queued already is still delivered; what is sent from now on,
    /// through any address of the mailbox, fails. This address remembers
    /// that it has closed the mailbox, and so does every address and every
    /// future that is made from it afterwards.
    pub fn close(&mut self)
        ensures
            final(self).closed(),
            final(self).bounded() == old(self).bounded(),
    {
        self.sender.close();
    }

    /// Returns whether the mailbox is connected.
    ///
    /// A mailbox that was closed through this address is not connected.
    /// Otherwise any handle of the mailbox may close it at any time, so the
    /// answer tells what was, not what will be.
    pub fn is_connected(&self) -> (connected: bool)
        ensures
            self.closed() ==> !connected,
    {
        connected_from(self.sender.is_closed())
    }

    /// Sends a message and waits for a response.
    ///
    /// The message travels inside the message type of the mailbox, as
    /// `From` wraps it, and the future that is returned unwraps the return
    /// value again.
    pub fn send<U>(&self, msg: U) -> (future: SendFuture<T, U>) where T: Wrap<U>, U: Message
        ensures
            future.inner().response() matches Some(response) && !response.resolved(),
            future.inner().queue().bounded() == self.bounded(),
            future.inner().queue().closed() == self.closed(),
            future.inner().queue().envelope() matches Some(envelope) && {
                &&& envelope.expects_response()
                &&& call_ensures(T::from, (msg,), envelope.message())
            },
    {
        SendFuture::new(self.wait(msg.into()))
    }

    /// Returns a future which resolves immediately when a message is queued.
    ///
    /// The message travels in an envelope that expects no response.
    pub fn queue(&self, msg: T) -> (future: QueueFuture<T>)
        ensures
            future.bounded() == self.bounded(),
            future.closed() == self.closed(),
            future.envelope() matches Some(envelope) && {
                &&& envelope.message() == msg
                &&& !envelope.expects_response()
            },
    {
        QueueFuture::new(self.sender.duplicate(), Envelope::new(msg))
    }

    /// Returns a future which will send a message and wait for a response.
    ///
    /// The message travels in an envelope that expects a response, and the
    /// future holds the other end of the response channel.
    pub fn wait(&self, msg: T) -> (future: MessageFuture<T, Wait>)
        ensures
            future.response() matches Some(response) && !response.resolved(),
            future.queue().bounded() == self.bounded(),
            future.queue().closed() == self.closed(),
            future.queue().envelope() matches Some(envelope) && {
                &&& envelope.message() == msg
                &&& envelope.expects_response()
            },
    {
        let (envelope, response) = Envelope::new_with_response(msg);
        MessageFuture::new(QueueFuture::new(self.sender.duplicate(), envelope), response)
    }

    /// Asks the mailbox for room for one envelope sent through this very
    /// address. An unbounded mailbox answers at once, and a mailbox that was
    /// closed through this address has no room to give.
    pub fn poll_ready(&mut self, cx: &mut std::task::Context<'_>) -> (r: Poll<Result<(), Error>>)
        ensures
            final(self).bounded() == old(self).bounded(),
            final(self).closed() == old(self).closed(),
            old(self).closed() ==> r == Poll::Ready(Err::<(), Error>(Error::Disconnected)),
            !old(self).bounded() ==> r is Ready,
            r matches Poll::Ready(Err(e)) ==> e == Error::Disconnected,
    {
        disconnected_error(self.sender.poll_ready(cx))
    }

    /// Puts an envelope into the mailbox after room was granted.
    ///
    /// A mailbox that was closed through this address takes nothing: the
    /// send fails. Otherwise the mailbox decides, and the only failure is
    /// `Error::Disconnected`.
    pub fn start_send(&mut self, item: Envelope<T>) -> (r: Result<(), Error>)
        ensures
            final(self).bounded() == old(self).bounded(),
            final(self).closed() == old(self).closed(),
            old(self).closed() ==> r == Err::<(), Error>(Error::Disconnected),
            r matches Err(e) ==> e == Error::Disconnected,
    {
        match self.sender.start_send(item) {
            Ok(()) => Ok(()),
            Err(_) => Err(Error::Disconnected),
        }
    }

    /// Waits until the mailbox has taken in what was sent through this very
    /// address. It never fails, and an unbounded mailbox has nothing to wait
    /// for.
    pub fn poll_flush(&mut self, cx: &mut std::task::Context<'_>) -> (r: Poll<Result<(), Error>>)
        ensures
            final(self).bounded() == old(self).bounded(),
            final(self).closed() == old(self).closed(),
            !old(self).bounded() ==> r is Ready,
            !(r matches Poll::Ready(Err(_))),
    {
        disconnected_error(self.sender.poll_flush(cx))
    }

    /// Lets go of the mailbox, at once and without failure. The mailbox ends
    /// once every address has let go of it or is gone.
    pub fn poll_close(&mut self, cx: &mut std::task::Context<'_>) -> (r: Poll<Result<(), Error>>)
        ensures
            final(self).bounded() == old(self).bounded(),
            final(self).closed() == old(self).closed(),
            r == Poll::Ready(Ok::<(), Error>(())),
    {
        disconnected_error(self.sender.poll_close(cx))
    }
}

impl<T: Message> Clone for Address<T> {
    /// One more address of the same mailbox, which knows of the mailbox what
    /// this one knows.
    fn clone(&self) -> (address: Self)
        ensures
            address.bounded() == self.bounded(),
            address.closed() == self.closed(),
    {
        Self { sender: self.sender.duplicate() }
    }
}

/// Whether a mailbox is connected, given the answer of its channel to
/// whether it is closed: it is connected exactly when the channel is not
/// closed.
pub fn connected_from(closed: bool) -> (connected: bool)
    ensures
        connected == !closed,
{
    !closed
}

/// To a sender, every failure of the queue channel is `Error::Disconnected`.
fn disconnected_error(r: Poll<Result<(), Disconnected>>) -> (out: Poll<Result<(), Error>>)
    ensures
        out == match r {
            Poll::Pending => Poll::Pending,
            Poll::Ready(Ok(_)) => Poll::Ready(Ok(())),
            Poll::Ready(Err(_)) => Poll::Ready(Err(Error::Disconnected)),
        },
{
    match r {
        Poll::Pending => Poll::Pending,
        Poll::Ready(Ok(())) => Poll::Ready(Ok(())),
        Poll::Ready(Err(_)) => Poll::Ready(Err(Error::Disconnected)),
    }
}

} // verus!
