//! Futures for sending messages and waiting for responses.
//!
//! Each future here is a state machine that is advanced by calls of its
//! `poll`, and each call asks the channel behind it at most once per step.
//! What the channel answers is not up to this library, so `poll` states what
//! holds of every answer, and the functions that take an answer as their
//! argument state what is made of each one.

use crate::channel::{
    new_response, response_is_terminated, response_poll, ChannelError, Disconnected, Producer,
    ResponseSender,
};
use crate::envelope::Envelope;
use crate::error::Error;
use crate::message::{Message, Wrap};
use std::marker::PhantomData;
use std::task::Poll;
use vstd::prelude::*;

verus! {

/// A `MessageFuture` mode which will wait for a response.
pub struct Wait;

/// A `MessageFuture` mode which will return a `ResponseFuture`.
pub struct Detach;

/// A future which resolves when a message is successfully queued.
#[must_use]
#[verifier::reject_recursive_types(T)]
pub struct QueueFuture<T: Message> {
    sender: Producer<T>,
    msg: Option<Envelope<T>>,
}

impl<T: Message> QueueFuture<T> {
    /// The envelope that is still to be sent, if any.
    pub closed spec fn envelope(&self) -> Option<Envelope<T>> {
        self.msg
    }

    /// Whether the channel that this future sends on is bounded.
    pub closed spec fn bounded(&self) -> bool {
        self.sender.is_bounded()
    }

    /// Whether the channel was closed through the address that this future
    /// was made from, before it was made.
    pub closed spec fn closed(&self) -> bool {
        self.sender.is_shut()
    }

    pub(crate) fn new(sender: Producer<T>, msg: Envelope<T>) -> (future: Self)
        ensures
            future.envelope() == Some(msg),
            future.bounded() == sender.is_bounded(),
            future.closed() == sender.is_shut(),
    {
        Self { sender, msg: Some(msg) }
    }

    /// What becomes of a queue operation when the channel has answered
    /// whether it has room: `None` where the envelope may now be sent, else
    /// what the operation resolves with for now, its envelope kept.
    pub fn on_ready(ready: Poll<Result<(), Disconnected>>) -> (halt: Option<Poll<Result<(), Error>>>)
        ensures
            halt == Self::ready_halts(ready),
    {
        match ready {
            Poll::Pending => Some(Poll::Pending),
            Poll::Ready(Err(_)) => Some(Poll::Ready(Err(Error::Disconnected))),
            Poll::Ready(Ok(())) => None,
        }
    }

    /// See [`QueueFuture::on_ready`].
    pub open spec fn ready_halts(ready: Poll<Result<(), Disconnected>>) -> Option<
        Poll<Result<(), Error>>,
    > {
        match ready {
            Poll::Pending => Some(Poll::Pending),
            Poll::Ready(Err(_)) => Some(Poll::Ready(Err(Error::Disconnected))),
            Poll::Ready(Ok(_)) => None,
        }
    }

    /// What becomes of a queue operation when the channel has answered the
    /// attempt to send its envelope: the envelope to keep for another
    /// attempt, and what the operation resolves with.
    ///
    /// An envelope that was taken in ends the operation with success, a
    /// disconnected channel ends it with `Error::Disconnected`, and a full
    /// channel leaves it pending with the envelope that came back.
    pub fn on_sent(sent: Result<(), ChannelError<Envelope<T>>>) -> (next: (
        Option<Envelope<T>>,
        Poll<Result<(), Error>>,
    ))
        ensures
            next == Self::sent_gives(sent),
    {
        match sent {
            Ok(()) => (None, Poll::Ready(Ok(()))),
            Err(ChannelError::Disconnected) => (None, Poll::Ready(Err(Error::Disconnected))),
            Err(ChannelError::Full(msg)) => (Some(msg), Poll::Pending),
        }
    }

    /// See [`QueueFuture::on_sent`].
    pub open spec fn sent_gives(sent: Result<(), ChannelError<Envelope<T>>>) -> (
        Option<Envelope<T>>,
        Poll<Result<(), Error>>,
    ) {
        match sent {
            Ok(_) => (None, Poll::Ready(Ok(()))),
            Err(ChannelError::Disconnected) => (None, Poll::Ready(Err(Error::Disconnected))),
            Err(ChannelError::Full(msg)) => (Some(msg), Poll::Pending),
        }
    }

    /// Advances the operation: asks the channel for room and, where there is
    /// room, hands it the envelope.
    ///
    /// Whatever the channel answers:
    /// - a future whose envelope has left it resolves with success again;
    /// - while the result is pending the envelope is kept, and only a
    ///   bounded channel leaves a send pending;
    /// - success means that the envelope has left the future;
    /// - the only failure is `Error::Disconnected`, and the envelope is then
    ///   either kept as it was or gone;
    /// - the envelope is never exchanged for another;
    /// - on a channel that was closed before the future was made, the
    ///   envelope stays where it is and the result is `Error::Disconnected`.
    pub fn poll(&mut self, cx: &mut std::task::Context<'_>) -> (r: Poll<Result<(), Error>>)
        ensures
            final(self).bounded() == old(self).bounded(),
            final(self).closed() == old(self).closed(),
            old(self).closed() && old(self).envelope() is Some ==> {
                &&& r == Poll::Ready(Err::<(), Error>(Error::Disconnected))
                &&& final(self).envelope() == old(self).envelope()
            },
            old(self).envelope() is None ==> r == Poll::Ready(Ok::<(), Error>(())),
            r is Pending ==> old(self).bounded() && old(self).envelope() is Some,
            r is Pending ==> final(self).envelope() == old(self).envelope(),
            r matches Poll::Ready(Ok(_)) ==> final(self).envelope() is None,
            r matches Poll::Ready(Err(e)) ==> e == Error::Disconnected && old(self).envelope() is Some,
            final(self).envelope() is Some ==> final(self).envelope() == old(self).envelope(),
    {
        match self.msg.take() {
            None => Poll::Ready(Ok(())),
            Some(msg) => {
                match Self::on_ready(self.sender.poll_ready(cx)) {
                    Some(halt) => {
                        self.msg = Some(msg);
                        halt
                    },
                    None => {
                        let (keep, r) = Self::on_sent(self.sender.try_send(msg));
                        self.msg = keep;
                        r
                    },
                }
            },
        }
    }

    /// Whether the envelope has left the future, after which polling it
    /// again has nothing to do.
    pub fn is_terminated(&self) -> (done: bool)
        ensures
            done == self.envelope() is None,
    {
        self.msg.is_none()
    }
}

/// A future which returns the response to a message.
#[must_use]
#[verifier::reject_recursive_types(T)]
pub struct ResponseFuture<T: Message> {
    receiver: futures_channel::oneshot::Receiver<T::Return>,
    resolved: bool,
}

impl<T: Message> ResponseFuture<T> {
    /// Whether the future has resolved: a call of [`ResponseFuture::poll`]
    /// has given the response or the failure to get one.
    pub closed spec fn resolved(&self) -> bool {
        self.resolved
    }

    /// The future of what arrives at `receiver`, not resolved yet.
    pub(crate) fn waiting_at(receiver: futures_channel::oneshot::Receiver<T::Return>) -> (future:
        Self)
        ensures
            !future.resolved(),
    {
        Self { receiver, resolved: false }
    }

    /// Returns a new [`ResponseSender`] and [`ResponseFuture`].
    ///
    /// The two are the ends of one response channel, and the future has not
    /// resolved yet.
    pub fn new() -> (pair: (ResponseSender<T>, Self))
        ensures
            !pair.1.resolved(),
    {
        new_response()
    }

    /// What a response operation resolves with when the response channel
    /// has answered: the value that was delivered, as it is, or
    /// `Error::Interrupted` where the producer half went away without
    /// sending.
    pub fn on_response(
        answer: Poll<Result<T::Return, futures_channel::oneshot::Canceled>>,
    ) -> (r: Poll<Result<T::Return, Error>>)
        ensures
            r == Self::response_gives(answer),
    {
        match answer {
            Poll::Pending => Poll::Pending,
            Poll::Ready(Ok(value)) => Poll::Ready(Ok(value)),
            Poll::Ready(Err(_)) => Poll::Ready(Err(Error::Interrupted)),
        }
    }

    /// See [`ResponseFuture::on_response`].
    pub open spec fn response_gives(
        answer: Poll<Result<T::Return, futures_channel::oneshot::Canceled>>,
    ) -> Poll<Result<T::Return, Error>> {
        match answer {
            Poll::Pending => Poll::Pending,
            Poll::Ready(Ok(value)) => Poll::Ready(Ok(value)),
            Poll::Ready(Err(_)) => Poll::Ready(Err(Error::Interrupted)),
        }
    }

    /// Asks the response channel for the response. The only failure is
    /// `Error::Interrupted`.
    ///
    /// The future resolves once: with the first answer that is not pending
    /// it has resolved, and a response channel has one value to give at
    /// most, so from then on the answer is `Error::Interrupted`.
    pub fn poll(&mut self, cx: &mut std::task::Context<'_>) -> (r: Poll<Result<T::Return, Error>>)
        ensures
            r matches Poll::Ready(Err(e)) ==> e == Error::Interrupted,
            old(self).resolved() ==> r matches Poll::Ready(Err(_)),
            final(self).resolved() == (old(self).resolved() || r is Ready),
    {
        if self.resolved {
            return Poll::Ready(Err(Error::Interrupted));
        }
        let r = Self::on_response(response_poll(&mut self.receiver, cx));
        self.resolved = has_resolved(&r);
        r
    }

    /// Whether the response channel has nothing more to give. Once the
    /// future has resolved, it has nothing more; before that the channel
    /// says whether its other end is gone and has left nothing.
    pub fn is_terminated(&self) -> (terminated: bool)
        ensures
            self.resolved() ==> terminated,
    {
        self.resolved || response_is_terminated(&self.receiver)
    }
}

/// Whether an answer of a polled operation is its last, that is, not pending.
pub fn has_resolved<V>(r: &Poll<V>) -> (resolved: bool)
    ensures
        resolved == (*r is Ready),
{
    match r {
        Poll::Ready(_) => true,
        Poll::Pending => false,
    }
}

/// A future which sends a message and optionally waits for a response depending on the mode.
///
/// # Modes
///
/// * [`Wait`] - Waits for a response.
/// * [`Detach`] - Returns a [`ResponseFuture`] which can be used to wait for the response.
#[must_use]
#[verifier::reject_recursive_types(T)]
pub struct MessageFuture<T: Message, M> {
    queue: QueueFuture<T>,
    response: Option<ResponseFuture<T>>,
    _mode: PhantomData<M>,
}

impl<T: Message, M> MessageFuture<T, M> {
    /// The queueing step of this future.
    pub closed spec fn queue(&self) -> QueueFuture<T> {
        self.queue
    }

    /// The response future that this future holds, if it still does.
    pub closed spec fn response(&self) -> Option<ResponseFuture<T>> {
        self.response
    }

    /// Returns `true` while the future holds its response future, that is
    /// until it has handed it out. One that waits for the response itself
    /// never hands it out.
    pub fn holds_response(&self) -> (held: bool)
        ensures
            held == self.response() is Some,
    {
        self.response.is_some()
    }
}

impl<T: Message> MessageFuture<T, Wait> {
    pub(crate) fn new(queue: QueueFuture<T>, response: ResponseFuture<T>) -> (future: Self)
        ensures
            future.queue() == queue,
            future.response() == Some(response),
    {
        Self { queue, response: Some(response), _mode: PhantomData }
    }

    /// Returns a new [`MessageFuture`] which will instead resolve when the message is sent and
    /// return a [`ResponseFuture`] which can be used to wait for the response.
    pub fn detach(self) -> (future: MessageFuture<T, Detach>)
        ensures
            future.queue() == self.queue(),
            future.response() == self.response(),
    {
        MessageFuture { queue: self.queue, response: self.response, _mode: PhantomData }
    }

    /// Advances the future: first the queueing step, and only when the
    /// envelope has left, the wait for the response.
    ///
    /// A future made by `Address::wait` holds its response future for good,
    /// which is what this asks for.
    ///
    /// Whatever the channels answer:
    /// - the response future stays where it is, untouched while the envelope
    ///   has not left, and resolved once it has given the result;
    /// - a result other than pending and `Error::Disconnected` comes from
    ///   the response channel, which is asked only once the envelope has
    ///   left;
    /// - a failure is `Error::Disconnected` from the queueing step or
    ///   `Error::Interrupted` from the response;
    /// - on an unbounded channel the future is pending only for the
    ///   response, never for room;
    /// - on a channel that was closed before the future was made, the
    ///   result is `Error::Disconnected`.
    pub fn poll(&mut self, cx: &mut std::task::Context<'_>) -> (r: Poll<Result<T::Return, Error>>)
        requires
            old(self).response() is Some,
        ensures
            final(self).response() matches Some(after) && {
                &&& old(self).response()->0.resolved() ==> after.resolved()
                &&& r matches Poll::Ready(Ok(_)) ==> after.resolved()
                &&& r == Poll::Ready(Err::<T::Return, Error>(Error::Interrupted)) ==> after.resolved()
            },
            final(self).queue().envelope() is Some ==> final(self).response() == old(self).response(),
            final(self).queue().bounded() == old(self).queue().bounded(),
            final(self).queue().closed() == old(self).queue().closed(),
            old(self).queue().closed() && old(self).queue().envelope() is Some ==> r matches Poll::Ready(
                Err(Error::Disconnected),
            ),
            r matches Poll::Ready(Ok(_)) ==> final(self).queue().envelope() is None,
            r matches Poll::Ready(Err(e)) ==> e == Error::Disconnected || e == Error::Interrupted,
            r matches Poll::Ready(Err(e)) && e == Error::Interrupted
                ==> final(self).queue().envelope() is None,
            r is Pending && final(self).queue().envelope() is Some ==> old(self).queue().bounded(),
            final(self).queue().envelope() is Some
                ==> final(self).queue().envelope() == old(self).queue().envelope(),
    {
        if !self.queue.is_terminated() {
            match self.queue.poll(cx) {
                Poll::Pending => {
                    return Poll::Pending;
                },
                Poll::Ready(Err(e)) => {
                    return Poll::Ready(Err(e));
                },
                Poll::Ready(Ok(())) => {},
            }
        }
        self.response.as_mut().expect("future is not polled after completion").poll(cx)
    }

    /// Whether the future has nothing more to do: the envelope has left and
    /// the response channel has nothing more to give.
    pub fn is_terminated(&self) -> (done: bool)
        ensures
            done ==> self.queue().envelope() is None,
            self.queue().envelope() is None && (self.response() matches Some(response)
                ==> response.resolved()) ==> done,
    {
        let responded = match &self.response {
            Some(response) => response.is_terminated(),
            None => true,
        };
        both_done(self.queue.is_terminated(), responded)
    }
}

/// Whether a send-and-wait has nothing more to do, given whether each of its
/// two steps has: it has nothing more to do when neither has.
pub fn both_done(queued: bool, responded: bool) -> (done: bool)
    ensures
        done == (queued && responded),
{
    queued && responded
}

impl<T: Message> MessageFuture<T, Detach> {
    /// Advances the queueing step and, once the envelope has left, hands
    /// out the response future without asking the response channel.
    ///
    /// It must not be polled again after it has handed out the response
    /// future.
    ///
    /// Whatever the channel answers:
    /// - the future resolves as soon as the envelope has left: it is pending
    ///   only while it still holds the envelope;
    /// - it resolves with the response future that it held, untouched, and
    ///   holds none afterwards;
    /// - otherwise the response future stays where it is;
    /// - the only failure is `Error::Disconnected`, which is also the result
    ///   on a channel that was closed before the future was made.
    pub fn poll(&mut self, cx: &mut std::task::Context<'_>) -> (r: Poll<
        Result<ResponseFuture<T>, Error>,
    >)
        requires
            old(self).response() is Some,
        ensures
            final(self).queue().bounded() == old(self).queue().bounded(),
            final(self).queue().closed() == old(self).queue().closed(),
            old(self).queue().closed() && old(self).queue().envelope() is Some ==> r matches Poll::Ready(
                Err(Error::Disconnected),
            ),
            old(self).queue().envelope() is None ==> r matches Poll::Ready(Ok(_)),
            r is Pending ==> final(self).queue().envelope() is Some && old(self).queue().bounded(),
            r matches Poll::Ready(Ok(response)) ==> {
                &&& Some(response) == old(self).response()
                &&& final(self).response() is None
                &&& final(self).queue().envelope() is None
            },
            !(r matches Poll::Ready(Ok(_))) ==> final(self).response() == old(self).response(),
            r matches Poll::Ready(Err(e)) ==> e == Error::Disconnected,
            final(self).queue().envelope() is Some
                ==> final(self).queue().envelope() == old(self).queue().envelope(),
    {
        if !self.queue.is_terminated() {
            match self.queue.poll(cx) {
                Poll::Pending => {
                    return Poll::Pending;
                },
                Poll::Ready(Err(e)) => {
                    return Poll::Ready(Err(e));
                },
                Poll::Ready(Ok(())) => {},
            }
        }
        Poll::Ready(Ok(self.response.take().expect("future is not polled after completion")))
    }
}

/// A future which sends a message inside the message type of a mailbox,
/// waits for the response, and unwraps the return value of the message
/// that was sent.
#[must_use]
#[verifier::reject_recursive_types(T)]
pub struct SendFuture<T: Message, U> {
    inner: MessageFuture<T, Wait>,
    _carried: PhantomData<U>,
}

impl<T: Wrap<U>, U: Message> SendFuture<T, U> {
    /// The send-and-wait operation on the wrapping message.
    pub closed spec fn inner(&self) -> MessageFuture<T, Wait> {
        self.inner
    }

    pub(crate) fn new(inner: MessageFuture<T, Wait>) -> (future: Self)
        ensures
            future.inner() == inner,
    {
        Self { inner, _carried: PhantomData }
    }

    /// Returns `true` while the future holds its response future, which one
    /// made by `Address::send` does for good.
    pub fn holds_response(&self) -> (held: bool)
        ensures
            held == self.inner().response() is Some,
    {
        self.inner.holds_response()
    }

    /// What a send resolves with when the send-and-wait operation on the
    /// wrapping message has answered: a failure as it is, and a return value
    /// as `Wrap::unwrap_return` unwraps it.
    pub fn on_reply(reply: Poll<Result<T::Return, Error>>) -> (r: Poll<Result<U::Return, Error>>)
        ensures
            match reply {
                Poll::Pending => r is Pending,
                Poll::Ready(Err(e)) => r == Poll::Ready(Err::<U::Return, Error>(e)),
                Poll::Ready(Ok(ret)) => r matches Poll::Ready(out) && call_ensures(
                    T::unwrap_return,
                    (ret,),
                    out,
                ),
            },
    {
        match reply {
            Poll::Pending => Poll::Pending,
            Poll::Ready(Err(e)) => Poll::Ready(Err(e)),
            Poll::Ready(Ok(ret)) => Poll::Ready(T::unwrap_return(ret)),
        }
    }

    /// Advances the send-and-wait operation and unwraps what it resolves
    /// with. The response future stays where it is.
    pub fn poll(&mut self, cx: &mut std::task::Context<'_>) -> (r: Poll<Result<U::Return, Error>>)
        requires
            old(self).inner().response() is Some,
        ensures
            final(self).inner().response() is Some,
            final(self).inner().queue().bounded() == old(self).inner().queue().bounded(),
            final(self).inner().queue().closed() == old(self).inner().queue().closed(),
            old(self).inner().queue().closed() && old(self).inner().queue().envelope() is Some
                ==> r matches Poll::Ready(Err(Error::Disconnected)),
            r matches Poll::Ready(Ok(_)) ==> final(self).inner().queue().envelope() is None,
            final(self).inner().queue().envelope() is Some
                ==> final(self).inner().queue().envelope() == old(self).inner().queue().envelope(),
    {
        Self::on_reply(self.inner.poll(cx))
    }
}

} // verus!
