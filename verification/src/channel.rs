//! The queue channel that carries envelopes to a mailbox, and the response
//! channel that carries one return value back.
//!
//! Both are channels of `futures_channel`. What such a channel answers
//! depends on what its other handles have done in the meantime, so the
//! contracts here say only what holds of every answer; the operations built
//! on them are verified for each answer that can come back.
//!
//! Two things a channel never takes back: that it was closed, and that it
//! has ended. A half of a queue channel remembers what it has learnt of
//! them itself, and its contracts say what follows.
//!
//! A queue channel counts its handles and its queued items in one machine
//! word, and panics where a count would pass what the word holds, a number of
//! the order of the address space. No input of this library decides that,
//! so no contract here can leave it out.

use crate::envelope::Envelope;
use crate::futures::ResponseFuture;
use crate::message::Message;
use std::task::Poll;
use vstd::prelude::*;

verus! {

/// The producer half of a bounded queue channel.
#[verifier::external_type_specification]
#[verifier::external_body]
#[verifier::reject_recursive_types(T)]
pub struct ExBoundedSender<T>(futures_channel::mpsc::Sender<T>);

/// The consumer half of a bounded queue channel.
#[verifier::external_type_specification]
#[verifier::external_body]
#[verifier::reject_recursive_types(T)]
pub struct ExBoundedReceiver<T>(futures_channel::mpsc::Receiver<T>);

/// The producer half of an unbounded queue channel.
#[verifier::external_type_specification]
#[verifier::external_body]
#[verifier::reject_recursive_types(T)]
pub struct ExUnboundedSender<T>(futures_channel::mpsc::UnboundedSender<T>);

/// The consumer half of an unbounded queue channel.
#[verifier::external_type_specification]
#[verifier::external_body]
#[verifier::reject_recursive_types(T)]
pub struct ExUnboundedReceiver<T>(futures_channel::mpsc::UnboundedReceiver<T>);

/// The error of the polling, starting and flushing operations of a producer
/// half.
#[verifier::external_type_specification]
#[verifier::external_body]
pub struct ExSendError(futures_channel::mpsc::SendError);

/// The producer half of a response channel.
#[verifier::external_type_specification]
#[verifier::external_body]
#[verifier::reject_recursive_types(T)]
pub struct ExOneshotSender<T>(futures_channel::oneshot::Sender<T>);

/// The consumer half of a response channel.
#[verifier::external_type_specification]
#[verifier::external_body]
#[verifier::reject_recursive_types(T)]
pub struct ExOneshotReceiver<T>(futures_channel::oneshot::Receiver<T>);

/// The error of a response channel whose producer half went away without
/// sending.
#[verifier::external_type_specification]
#[verifier::external_body]
pub struct ExCanceled(futures_channel::oneshot::Canceled);

/// `futures_channel::mpsc::channel` makes a bounded channel. It panics on a
/// buffer of a quarter of the address space or more, which is left out here.
pub assume_specification<T>[ futures_channel::mpsc::channel::<T> ](buffer: usize) -> (pair: (
    futures_channel::mpsc::Sender<T>,
    futures_channel::mpsc::Receiver<T>,
))
    requires
        buffer < usize::MAX / 4,
;

/// `futures_channel::mpsc::unbounded` makes an unbounded channel.
pub assume_specification<T>[ futures_channel::mpsc::unbounded::<T> ]() -> (pair: (
    futures_channel::mpsc::UnboundedSender<T>,
    futures_channel::mpsc::UnboundedReceiver<T>,
))
;

/// `futures_channel::oneshot::channel` makes a response channel.
pub assume_specification<T>[ futures_channel::oneshot::channel::<T> ]() -> (pair: (
    futures_channel::oneshot::Sender<T>,
    futures_channel::oneshot::Receiver<T>,
))
;

/// `futures_channel::oneshot::Sender::send`. Where the consumer half is gone
/// the value comes back in the error, the very one that was handed in.
pub assume_specification<T>[ futures_channel::oneshot::Sender::<T>::send ](
    sender: futures_channel::oneshot::Sender<T>,
    value: T,
) -> (r: Result<(), T>)
    ensures
        r matches Err(back) ==> back == value,
;

/// `Clone::clone` of a bounded producer half: one more handle of the same
/// channel. It panics once the channel has as many handles as it can count,
/// a number of the order of the address space.
pub assume_specification<T>[ <futures_channel::mpsc::Sender<T> as Clone>::clone ](
    sender: &futures_channel::mpsc::Sender<T>,
) -> (handle: futures_channel::mpsc::Sender<T>)
;

/// `Clone::clone` of an unbounded producer half: one more handle of the same
/// channel, with the same limit on their number.
pub assume_specification<T>[ <futures_channel::mpsc::UnboundedSender<T> as Clone>::clone ](
    sender: &futures_channel::mpsc::UnboundedSender<T>,
) -> (handle: futures_channel::mpsc::UnboundedSender<T>)
;

/// `futures_channel::mpsc::Sender::close_channel` closes the channel for all
/// its handles.
pub assume_specification<T>[ futures_channel::mpsc::Sender::<T>::close_channel ](
    sender: &mut futures_channel::mpsc::Sender<T>,
)
;

/// `futures_channel::mpsc::UnboundedSender::close_channel` closes the channel
/// for all its handles.
pub assume_specification<T>[ futures_channel::mpsc::UnboundedSender::<T>::close_channel ](
    sender: &futures_channel::mpsc::UnboundedSender<T>,
)
;

/// `futures_channel::mpsc::Sender::is_closed`. Any handle may close the
/// channel at any time, so nothing is claimed of the answer.
pub assume_specification<T>[ futures_channel::mpsc::Sender::<T>::is_closed ](
    sender: &futures_channel::mpsc::Sender<T>,
) -> (closed: bool)
;

/// `futures_channel::mpsc::UnboundedSender::is_closed`, of which nothing is
/// claimed either.
pub assume_specification<T>[ futures_channel::mpsc::UnboundedSender::<T>::is_closed ](
    sender: &futures_channel::mpsc::UnboundedSender<T>,
) -> (closed: bool)
;

/// `futures_channel::mpsc::Sender::poll_ready`. Whether a slot is free
/// depends on the other handles, so nothing is claimed of the answer.
pub assume_specification<T>[ futures_channel::mpsc::Sender::<T>::poll_ready ](
    sender: &mut futures_channel::mpsc::Sender<T>,
    cx: &mut std::task::Context<'_>,
) -> (r: Poll<Result<(), futures_channel::mpsc::SendError>>)
;

/// `futures_channel::mpsc::UnboundedSender::poll_ready` answers at once: an
/// unbounded channel is ready while it is open, and fails once it is closed.
pub assume_specification<T>[ futures_channel::mpsc::UnboundedSender::<T>::poll_ready ](
    sender: &futures_channel::mpsc::UnboundedSender<T>,
    cx: &mut std::task::Context<'_>,
) -> (r: Poll<Result<(), futures_channel::mpsc::SendError>>)
    ensures
        r is Ready,
;

/// `futures_channel::mpsc::Sender::start_send`, of which nothing is claimed.
pub assume_specification<T>[ futures_channel::mpsc::Sender::<T>::start_send ](
    sender: &mut futures_channel::mpsc::Sender<T>,
    item: T,
) -> (r: Result<(), futures_channel::mpsc::SendError>)
;

/// `futures_channel::mpsc::UnboundedSender::start_send`, of which nothing is
/// claimed.
pub assume_specification<T>[ futures_channel::mpsc::UnboundedSender::<T>::start_send ](
    sender: &mut futures_channel::mpsc::UnboundedSender<T>,
    item: T,
) -> (r: Result<(), futures_channel::mpsc::SendError>)
;

/// `futures_channel::mpsc::Sender::try_send`, its error told apart into the
/// two failures of a queue channel. A full channel hands the item back, the
/// very one that was handed in.
#[verifier::external_body]
fn bounded_try_send<T>(sender: &mut futures_channel::mpsc::Sender<T>, item: T) -> (r: Result<
    (),
    ChannelError<T>,
>)
    ensures
        r matches Err(ChannelError::Full(back)) ==> back == item,
{
    match sender.try_send(item) {
        Ok(()) => Ok(()),
        Err(e) if e.is_full() => Err(ChannelError::Full(e.into_inner())),
        Err(_) => Err(ChannelError::Disconnected),
    }
}

/// `futures_channel::mpsc::UnboundedSender::unbounded_send`, its error told
/// apart in the same way. An unbounded channel is never full: the only
/// failure is a closed channel.
#[verifier::external_body]
fn unbounded_try_send<T>(sender: &futures_channel::mpsc::UnboundedSender<T>, item: T) -> (r: Result<
    (),
    ChannelError<T>,
>)
    ensures
        !(r matches Err(ChannelError::Full(_))),
{
    match sender.unbounded_send(item) {
        Ok(()) => Ok(()),
        Err(e) if e.is_full() => Err(ChannelError::Full(e.into_inner())),
        Err(_) => Err(ChannelError::Disconnected),
    }
}

/// `Sink::poll_flush` of a bounded producer half. It is pending while the
/// handle waits for a slot; a closed channel counts as flushed, so it never
/// fails.
#[verifier::external_body]
fn bounded_poll_flush<T>(
    sender: &mut futures_channel::mpsc::Sender<T>,
    cx: &mut std::task::Context<'_>,
) -> (r: Poll<Result<(), futures_channel::mpsc::SendError>>)
    ensures
        !(r matches Poll::Ready(Err(_))),
{
    futures_util::Sink::poll_flush(std::pin::Pin::new(sender), cx)
}

/// `Sink::poll_flush` of an unbounded producer half, which has nothing to
/// flush.
#[verifier::external_body]
fn unbounded_poll_flush<T>(
    sender: &mut futures_channel::mpsc::UnboundedSender<T>,
    cx: &mut std::task::Context<'_>,
) -> (r: Poll<Result<(), futures_channel::mpsc::SendError>>)
    ensures
        r matches Poll::Ready(Ok(_)),
{
    futures_util::Sink::poll_flush(std::pin::Pin::new(sender), cx)
}

/// `Sink::poll_close` of a bounded producer half: the handle lets go of the
/// channel, at once and without failure.
#[verifier::external_body]
fn bounded_poll_close<T>(
    sender: &mut futures_channel::mpsc::Sender<T>,
    cx: &mut std::task::Context<'_>,
) -> (r: Poll<Result<(), futures_channel::mpsc::SendError>>)
    ensures
        r matches Poll::Ready(Ok(_)),
{
    futures_util::Sink::poll_close(std::pin::Pin::new(sender), cx)
}

/// `Sink::poll_close` of an unbounded producer half: the handle lets go of
/// the channel, at once and without failure.
#[verifier::external_body]
fn unbounded_poll_close<T>(
    sender: &mut futures_channel::mpsc::UnboundedSender<T>,
    cx: &mut std::task::Context<'_>,
) -> (r: Poll<Result<(), futures_channel::mpsc::SendError>>)
    ensures
        r matches Poll::Ready(Ok(_)),
{
    futures_util::Sink::poll_close(std::pin::Pin::new(sender), cx)
}

/// `Stream::poll_next` of a bounded consumer half. What it finds depends on
/// the producers, so nothing is claimed of the answer.
#[verifier::external_body]
fn bounded_poll_next<T>(
    receiver: &mut futures_channel::mpsc::Receiver<T>,
    cx: &mut std::task::Context<'_>,
) -> (r: Poll<Option<T>>) {
    futures_core::Stream::poll_next(std::pin::Pin::new(receiver), cx)
}

/// `Stream::poll_next` of an unbounded consumer half, of which nothing is
/// claimed either.
#[verifier::external_body]
fn unbounded_poll_next<T>(
    receiver: &mut futures_channel::mpsc::UnboundedReceiver<T>,
    cx: &mut std::task::Context<'_>,
) -> (r: Poll<Option<T>>) {
    futures_core::Stream::poll_next(std::pin::Pin::new(receiver), cx)
}

/// `Future::poll` of the consumer half of a response channel. Whether the
/// value has arrived depends on the producer half, so nothing is claimed of
/// the answer.
#[verifier::external_body]
pub(crate) fn response_poll<V>(
    receiver: &mut futures_channel::oneshot::Receiver<V>,
    cx: &mut std::task::Context<'_>,
) -> (r: Poll<Result<V, futures_channel::oneshot::Canceled>>) {
    std::future::Future::poll(std::pin::Pin::new(receiver), cx)
}

/// `FusedFuture::is_terminated` of the consumer half of a response channel,
/// of which nothing is claimed.
#[verifier::external_body]
pub(crate) fn response_is_terminated<V>(receiver: &futures_channel::oneshot::Receiver<V>) -> (r:
    bool) {
    futures_core::FusedFuture::is_terminated(receiver)
}

/// A failed attempt to put an item into a queue channel.
pub enum ChannelError<T> {
    /// The channel is closed.
    Disconnected,
    /// The channel is full.
    Full(T),
}

/// The consumer of a queue channel is gone, or the channel was closed.
pub struct Disconnected;

/// Returns the two halves of a new response channel. Nothing has come of it
/// yet: the receiving half has not resolved.
pub(crate) fn new_response<T: Message>() -> (pair: (ResponseSender<T>, ResponseFuture<T>))
    ensures
        !pair.1.resolved(),
{
    let (sender, receiver) = futures_channel::oneshot::channel();

    (ResponseSender(sender), ResponseFuture::waiting_at(receiver))
}

/// A channel for sending a response to a message.
#[derive(Debug)]
#[verifier::reject_recursive_types(T)]
pub struct ResponseSender<T: Message>(futures_channel::oneshot::Sender<T::Return>);

impl<T: Message> ResponseSender<T> {
    /// Sends the response.
    ///
    /// Where the caller has given up waiting, the response is dropped: that
    /// is no failure.
    pub fn send(self, msg: T::Return) {
        let _ = self.0.send(msg);
    }
}

/// Returns the two halves of a new bounded queue channel, open and with
/// nothing taken from it yet.
pub(crate) fn new_channel<T: Message>(capacity: usize) -> (pair: (Producer<T>, Consumer<T>))
    requires
        capacity < usize::MAX / 4,
    ensures
        pair.0.is_bounded(),
        pair.1.is_bounded(),
        !pair.0.is_shut(),
        !pair.1.has_ended(),
{
    let (sender, receiver) = futures_channel::mpsc::channel(capacity);

    (
        Producer { link: ProducerLink::Bounded(sender), shut: false },
        Consumer { link: ConsumerLink::Bounded(receiver), ended: false },
    )
}

/// Returns the two halves of a new unbounded queue channel, open and with
/// nothing taken from it yet.
pub(crate) fn new_unbounded_channel<T: Message>() -> (pair: (Producer<T>, Consumer<T>))
    ensures
        !pair.0.is_bounded(),
        !pair.1.is_bounded(),
        !pair.0.is_shut(),
        !pair.1.has_ended(),
{
    let (sender, receiver) = futures_channel::mpsc::unbounded();

    (
        Producer { link: ProducerLink::Unbounded(sender), shut: false },
        Consumer { link: ConsumerLink::Unbounded(receiver), ended: false },
    )
}

/// The handle that a producer half holds of its channel.
#[derive(Debug)]
#[verifier::reject_recursive_types(T)]
pub(crate) enum ProducerLink<T: Message> {
    Bounded(futures_channel::mpsc::Sender<Envelope<T>>),
    Unbounded(futures_channel::mpsc::UnboundedSender<Envelope<T>>),
}

/// The producer half of a queue channel, bounded or unbounded.
///
/// A channel that was closed stays closed. So a producer half remembers
/// that the channel was closed through it, and from then on refuses what is
/// sent through it without asking the channel.
#[derive(Debug)]
#[verifier::reject_recursive_types(T)]
pub(crate) struct Producer<T: Message> {
    link: ProducerLink<T>,
    shut: bool,
}

impl<T: Message> Clone for Producer<T> {
    /// See [`Producer::duplicate`].
    fn clone(&self) -> Self {
        self.duplicate()
    }
}

impl<T: Message> Producer<T> {
    /// Whether the channel holds back its producers when it is full.
    pub(crate) closed spec fn is_bounded(&self) -> bool {
        self.link is Bounded
    }

    /// Whether the channel was closed through this handle, or through the
    /// one that this handle was cloned from.
    pub(crate) closed spec fn is_shut(&self) -> bool {
        self.shut
    }

    /// One more handle of the same channel, of the same kind, which knows of
    /// the channel what this one knows.
    pub(crate) fn duplicate(&self) -> (handle: Self)
        ensures
            handle.is_bounded() == self.is_bounded(),
            handle.is_shut() == self.is_shut(),
    {
        let link = match &self.link {
            ProducerLink::Bounded(sender) => ProducerLink::Bounded(sender.clone()),
            ProducerLink::Unbounded(sender) => ProducerLink::Unbounded(sender.clone()),
        };
        Self { link, shut: self.shut }
    }

    /// Marks the channel closed: what is queued still drains, new sends fail.
    /// The handle remembers it.
    pub(crate) fn close(&mut self)
        ensures
            final(self).is_shut(),
            final(self).is_bounded() == old(self).is_bounded(),
    {
        match &mut self.link {
            ProducerLink::Bounded(sender) => sender.close_channel(),
            ProducerLink::Unbounded(sender) => sender.close_channel(),
        }
        self.shut = true;
    }

    /// Whether the channel is closed. It is, if it was closed through this
    /// handle; else the channel says whether another handle has closed it or
    /// the consumer is gone.
    pub(crate) fn is_closed(&self) -> (closed: bool)
        ensures
            self.is_shut() ==> closed,
    {
        let answer = match &self.link {
            ProducerLink::Bounded(sender) => sender.is_closed(),
            ProducerLink::Unbounded(sender) => sender.is_closed(),
        };
        closed_from(self.shut, answer)
    }

    /// Asks for a free slot. A channel that was closed through this handle
    /// has none to give. A bounded channel may answer that there is none
    /// yet; an unbounded one always answers at once.
    pub(crate) fn poll_ready(&mut self, cx: &mut std::task::Context<'_>) -> (r: Poll<
        Result<(), Disconnected>,
    >)
        ensures
            final(self).is_bounded() == old(self).is_bounded(),
            final(self).is_shut() == old(self).is_shut(),
            old(self).is_shut() ==> r matches Poll::Ready(Err(_)),
            !old(self).is_bounded() ==> r is Ready,
    {
        if self.shut {
            return Poll::Ready(Err(Disconnected));
        }
        match &mut self.link {
            ProducerLink::Bounded(sender) => disconnected_ready(sender.poll_ready(cx)),
            ProducerLink::Unbounded(sender) => disconnected_ready(sender.poll_ready(cx)),
        }
    }

    /// Puts an envelope into the channel at once, or says why not. A channel
    /// that was closed through this handle takes nothing: the send fails as
    /// disconnected. A full channel hands the envelope back; only a bounded
    /// channel can be full.
    pub(crate) fn try_send(&mut self, envelope: Envelope<T>) -> (r: Result<
        (),
        ChannelError<Envelope<T>>,
    >)
        ensures
            final(self).is_bounded() == old(self).is_bounded(),
            final(self).is_shut() == old(self).is_shut(),
            old(self).is_shut() ==> r matches Err(ChannelError::Disconnected),
            r matches Err(ChannelError::Full(back)) ==> back == envelope && old(self).is_bounded(),
    {
        if self.shut {
            return Err(ChannelError::Disconnected);
        }
        match &mut self.link {
            ProducerLink::Bounded(sender) => bounded_try_send(sender, envelope),
            ProducerLink::Unbounded(sender) => unbounded_try_send(sender, envelope),
        }
    }

    /// Puts an envelope into the channel after a slot was granted. A channel
    /// that was closed through this handle takes nothing: the send fails.
    pub(crate) fn start_send(&mut self, item: Envelope<T>) -> (r: Result<(), Disconnected>)
        ensures
            final(self).is_bounded() == old(self).is_bounded(),
            final(self).is_shut() == old(self).is_shut(),
            old(self).is_shut() ==> r is Err,
    {
        if self.shut {
            return Err(Disconnected);
        }
        match &mut self.link {
            ProducerLink::Bounded(sender) => disconnected(sender.start_send(item)),
            ProducerLink::Unbounded(sender) => disconnected(sender.start_send(item)),
        }
    }

    /// Waits until what was sent through this handle has been taken in. It
    /// never fails, and an unbounded channel has nothing to wait for.
    pub(crate) fn poll_flush(&mut self, cx: &mut std::task::Context<'_>) -> (r: Poll<
        Result<(), Disconnected>,
    >)
        ensures
            final(self).is_bounded() == old(self).is_bounded(),
            final(self).is_shut() == old(self).is_shut(),
            !(r matches Poll::Ready(Err(_))),
            !old(self).is_bounded() ==> r is Ready,
    {
        match &mut self.link {
            ProducerLink::Bounded(sender) => disconnected_ready(bounded_poll_flush(sender, cx)),
            ProducerLink::Unbounded(sender) => disconnected_ready(unbounded_poll_flush(sender, cx)),
        }
    }

    /// Lets go of the channel, at once and without failure.
    pub(crate) fn poll_close(&mut self, cx: &mut std::task::Context<'_>) -> (r: Poll<
        Result<(), Disconnected>,
    >)
        ensures
            final(self).is_bounded() == old(self).is_bounded(),
            final(self).is_shut() == old(self).is_shut(),
            r matches Poll::Ready(Ok(_)),
    {
        match &mut self.link {
            ProducerLink::Bounded(sender) => disconnected_ready(bounded_poll_close(sender, cx)),
            ProducerLink::Unbounded(sender) => disconnected_ready(unbounded_poll_close(sender, cx)),
        }
    }
}

/// Whether a channel is closed, given what a producer half remembers and
/// what the channel answers: it is closed if either says so.
pub fn closed_from(shut: bool, answer: bool) -> (closed: bool)
    ensures
        closed == (shut || answer),
{
    shut || answer
}

/// Every failure of a producer half means one thing to this library: the
/// channel is disconnected.
pub(crate) fn disconnected(r: Result<(), futures_channel::mpsc::SendError>) -> (out: Result<
    (),
    Disconnected,
>)
    ensures
        out is Ok == r is Ok,
{
    match r {
        Ok(()) => Ok(()),
        Err(_) => Err(Disconnected),
    }
}

/// The same, for an answer that may still be pending.
pub(crate) fn disconnected_ready(
    r: Poll<Result<(), futures_channel::mpsc::SendError>>,
) -> (out: Poll<Result<(), Disconnected>>)
    ensures
        out is Pending == r is Pending,
        out matches Poll::Ready(Ok(_)) == r matches Poll::Ready(Ok(_)),
{
    match r {
        Poll::Ready(inner) => Poll::Ready(disconnected(inner)),
        Poll::Pending => Poll::Pending,
    }
}

/// The handle that a consumer half holds of its channel.
#[derive(Debug)]
#[verifier::reject_recursive_types(T)]
pub(crate) enum ConsumerLink<T: Message> {
    Bounded(futures_channel::mpsc::Receiver<Envelope<T>>),
    Unbounded(futures_channel::mpsc::UnboundedReceiver<Envelope<T>>),
}

/// The consumer half of a queue channel, bounded or unbounded.
///
/// A channel that has ended gives nothing more. So a consumer half remembers
/// that the channel has told it of its end, and from then on answers for
/// the channel.
#[derive(Debug)]
#[verifier::reject_recursive_types(T)]
pub(crate) struct Consumer<T: Message> {
    link: ConsumerLink<T>,
    ended: bool,
}

impl<T: Message> Consumer<T> {
    /// Whether the channel holds back its producers when it is full.
    pub(crate) closed spec fn is_bounded(&self) -> bool {
        self.link is Bounded
    }

    /// Whether the channel has told this half of its end.
    pub(crate) closed spec fn has_ended(&self) -> bool {
        self.ended
    }

    /// Asks for the next envelope: one that is queued, the end of the
    /// channel, or neither yet. The end is for good: a half that was told of
    /// it answers with it ever after, and remembers it from the first time.
    pub(crate) fn poll_next(&mut self, cx: &mut std::task::Context<'_>) -> (r: Poll<
        Option<Envelope<T>>,
    >)
        ensures
            final(self).is_bounded() == old(self).is_bounded(),
            old(self).has_ended() ==> r matches Poll::Ready(None),
            final(self).has_ended() == (r matches Poll::Ready(None)),
    {
        if self.ended {
            return Poll::Ready(None);
        }
        let r = match &mut self.link {
            ConsumerLink::Bounded(receiver) => bounded_poll_next(receiver, cx),
            ConsumerLink::Unbounded(receiver) => unbounded_poll_next(receiver, cx),
        };
        self.ended = ended_with(&r);
        r
    }
}

/// Whether an answer of a consumer half is the end of the channel.
pub(crate) fn ended_with<V>(r: &Poll<Option<V>>) -> (ended: bool)
    ensures
        ended == (*r matches Poll::Ready(None)),
{
    match r {
        Poll::Ready(None) => true,
        _ => false,
    }
}

} // verus!
