//! A message on its way to an actor.

use crate::actor::{Actor, Context};
use crate::channel::ResponseSender;
use crate::futures::ResponseFuture;
use crate::message::{Dispatch, Message};
use vstd::prelude::*;

verus! {

/// Takes a return value that nobody waits for, and drops it.
pub fn discard<T: Message>(ret: T::Return) {
}

/// Hands a message to the handling logic of an actor, together with the
/// callback that is to take the return value.
///
/// The actor and the context are as `Dispatch::dispatch` leaves them when it
/// is given this message, this actor, this context and this callback.
pub fn hand_over<T, A, R>(msg: T, actor: &mut A, ctx: &mut Context<A>, ret: R) where
    T: Dispatch<A>,
    A: Actor,
    R: FnOnce(T::Return) + Send,

    requires
        forall|value: T::Return| ret.requires((value,)),
    ensures
        exists|a: &mut A, c: &mut Context<A>|
            {
                &&& *a == *old(actor)
                &&& *c == *old(ctx)
                &&& #[trigger] call_ensures(T::dispatch::<R>, (msg, a, c, ret), ())
                &&& *final(actor) == *final(a)
                &&& *final(ctx) == *final(c)
            },
{
    msg.dispatch(actor, ctx, ret);
}

/// The two forms of an envelope.
#[verifier::reject_recursive_types(T)]
pub(crate) enum EnvelopeInner<T: Message> {
    /// A message which does not expect a response.
    NoResponse(T),
    /// A message which expects a response.
    WantsResponse(T, ResponseSender<T>),
}

/// An envelope containing a message and optionally a channel which can be
/// used to return a response back to the sender.
#[verifier::reject_recursive_types(T)]
pub struct Envelope<T: Message>(EnvelopeInner<T>);

impl<T: Message> Envelope<T> {
    /// The message that the envelope carries.
    pub closed spec fn message(&self) -> T {
        match self.0 {
            EnvelopeInner::NoResponse(msg) => msg,
            EnvelopeInner::WantsResponse(msg, _) => msg,
        }
    }

    /// Whether the envelope carries a channel for the response.
    pub closed spec fn expects_response(&self) -> bool {
        self.0 is WantsResponse
    }

    /// Create a new envelope.
    pub fn new(msg: T) -> (envelope: Self)
        ensures
            envelope.message() == msg,
            !envelope.expects_response(),
    {
        Self(EnvelopeInner::NoResponse(msg))
    }

    /// Create a new envelope with a channel which can be used to return
    /// a response to the sender.
    pub fn new_with_response(msg: T) -> (pair: (Self, ResponseFuture<T>))
        ensures
            pair.0.message() == msg,
            pair.0.expects_response(),
            !pair.1.resolved(),
    {
        let (send, recv) = ResponseFuture::new();
        (Self(EnvelopeInner::WantsResponse(msg, send)), recv)
    }

    /// Returns `true` if the envelope has a channel which will receive a response.
    pub fn wants_response(&self) -> (wanted: bool)
        ensures
            wanted == self.expects_response(),
    {
        match &self.0 {
            EnvelopeInner::NoResponse(_) => false,
            EnvelopeInner::WantsResponse(_, _) => true,
        }
    }

    /// Dispatches the message and return channel to the actor for handling.
    ///
    /// The envelope is opened once, here. The message goes to
    /// `Dispatch::dispatch`, which alone decides what becomes of the actor
    /// and of the context. What the handling returns goes into the response
    /// channel if the envelope has one; where the sender has given up
    /// waiting, the value is dropped, which is no failure.
    ///
    /// Either way the message is handed over by [`hand_over`], which says
    /// what becomes of the actor and of the context for any callback. For an
    /// envelope without a response channel the callback is [`discard`], and
    /// the same is said here. With a response channel the callback is a
    /// closure that sends the return value, and a closure has a type that
    /// no clause of this function can name.
    ///
    /// # Arguments
    ///
    /// * `actor` - The actor which will handle the message.
    /// * `ctx` - The context of the actor.
    pub fn dispatch<A>(self, actor: &mut A, ctx: &mut Context<A>) where A: Actor, T: Dispatch<A>
        ensures
            !self.expects_response() ==> exists|a: &mut A, c: &mut Context<A>|
                {
                    &&& *a == *old(actor)
                    &&& *c == *old(ctx)
                    &&& #[trigger] call_ensures(
                        T::dispatch,
                        (self.message(), a, c, discard::<T>),
                        (),
                    )
                    &&& *final(actor) == *final(a)
                    &&& *final(ctx) == *final(c)
                },
    {
        match self.0 {
            EnvelopeInner::NoResponse(msg) => {
                assert(msg == self.message());
                hand_over(msg, actor, ctx, discard::<T>);
            },
            EnvelopeInner::WantsResponse(msg, sender) => {
                hand_over(msg, actor, ctx, move |ret: T::Return| { sender.send(ret); });
            },
        }
    }
}

} // verus!
