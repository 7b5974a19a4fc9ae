//! Actors, their handlers, and the execution context that handling logic
//! talks to.

use crate::message::Message;
use vstd::prelude::*;

verus! {

/// What an execution context holds: whether a stop was requested, and the
/// error that handling logic has propagated, if any.
pub struct ContextView<E> {
    pub stopped: bool,
    pub error: Option<E>,
}

/// An actor's execution context.
pub struct Context<A: Actor> {
    stopped: bool,
    err: Option<A::Error>,
}

impl<A: Actor> View for Context<A> {
    type V = ContextView<A::Error>;

    closed spec fn view(&self) -> ContextView<A::Error> {
        ContextView { stopped: self.stopped, error: self.err }
    }
}

impl<A: Actor> Default for Context<A> {
    /// A fresh context: no stop requested, no error pending.
    fn default() -> (ctx: Self)
        ensures
            !ctx@.stopped,
            ctx@.error is None,
    {
        Self { stopped: false, err: None }
    }
}

impl<A: Actor> Context<A> {
    /// Signals to the actor that it should stop processing messages.
    pub fn stop(&mut self)
        ensures
            final(self)@.stopped,
            final(self)@.error == old(self)@.error,
    {
        self.stopped = true;
    }

    /// Returns `true` if the actor has received a stop signal.
    pub fn stopped(&self) -> (b: bool)
        ensures
            b == self@.stopped,
    {
        self.stopped
    }

    /// Returns an error if one has occurred.
    pub fn error(&self) -> (e: Option<&A::Error>)
        ensures
            e is Some == self@.error is Some,
            e matches Some(err) ==> self@.error == Some(*err),
    {
        self.err.as_ref()
    }

    /// Propagates an error to the actor context.
    pub fn set_error(&mut self, err: A::Error)
        ensures
            final(self)@.error == Some(err),
            final(self)@.stopped == old(self)@.stopped,
    {
        self.err = Some(err);
    }

    /// Takes an error if one has occurred.
    pub fn take_error(&mut self) -> (e: Option<A::Error>)
        ensures
            e == old(self)@.error,
            final(self)@.error is None,
            final(self)@.stopped == old(self)@.stopped,
    {
        self.err.take()
    }

    /// Executes a fallible function and propagates any errors to the context.
    ///
    /// The function works on this context. What it returns on success is
    /// handed on and the context stays as the function left it; an error
    /// becomes the pending error of the context.
    pub fn try_or_stop<F: FnOnce(&mut Self) -> Result<V, A::Error>, V>(&mut self, f: F) -> (r: Option<V>)
        requires
            forall|c: &mut Self| f.requires((c,)),
        ensures
            exists|c: &mut Self, outcome: Result<V, A::Error>|
                {
                    &&& *c == *old(self)
                    &&& #[trigger] f.ensures((c,), outcome)
                    &&& match outcome {
                        Ok(value) => r == Some(value) && *final(self) == *final(c),
                        Err(err) => {
                            &&& r is None
                            &&& final(self)@.error == Some(err)
                            &&& final(self)@.stopped == final(c)@.stopped
                        },
                    }
                },
    {
        match f(self) {
            Ok(ok) => Some(ok),
            Err(err) => {
                self.err = Some(err);
                None
            },
        }
    }
}

/// An actor.
///
/// # Start
///
/// When an actor is first started, the [`Actor::started`] method will be called. By default this method
/// does nothing, but it can be overridden to perform any initialization required by the actor.
///
/// # Stop
///
/// When an actor receives a stop signal it will stop processing messages and the [`Actor::stopped`] method
/// will be called before returning.
pub trait Actor: Send + Sized {
    /// The type of value returned when this actor is stopped.
    type Stop;

    /// The type of error which may occur during handling.
    type Error: Send + 'static;

    /// A method which can be overridden to perform any initialization required by the
    /// actor during startup.
    fn started(&mut self, ctx: &mut Context<Self>) -> (r: Result<(), Self::Error>) {
        Ok(())
    }

    /// A method which is called when the actor receives a stop signal.
    fn stopped(&mut self) -> Result<Self::Stop, Self::Error>;
}

/// An actor that can handle a message.
///
/// When an actor receives a message it is passed to its handler, which
/// processes the message and optionally returns a value to the caller.
///
/// For extra control over how a message is handled, see [`Handler::process`].
pub trait Handler<T: Message>: Actor {
    /// Handle a message and return a value to the caller.
    ///
    /// # Arguments
    ///
    /// * `msg` - The message to handle.
    /// * `ctx` - The actor's execution context.
    fn handle(&mut self, msg: T, ctx: &mut Context<Self>) -> T::Return;

    /// Handle a message and return a value to the caller. This method is similar to [`Handler::handle`]
    /// except that it gives more control over how the message is handled.
    ///
    /// By default, this method simply calls [`Handler::handle`] and returns the value back to the caller.
    ///
    /// # Arguments
    ///
    /// * `msg` - The message to handle.
    /// * `ctx` - The actor's execution context.
    /// * `ret` - A channel which returns a value to the caller.
    ///
    /// # Defer handling
    ///
    /// Ownership of the return channel `ret` is provided to this method. This allows the
    /// actor to defer handling of the message until later, or to send the message to another
    /// thread for processing without blocking the actor.
    ///
    /// # Post processing
    ///
    /// It may be useful to perform post-processing after a message has been handled. This can be
    /// done by overriding this method and performing work after the value has been sent back to
    /// the caller.
    fn process<R: FnOnce(T::Return) + Send>(&mut self, msg: T, ctx: &mut Context<Self>, ret: R)
        requires
            forall|value: T::Return| ret.requires((value,)),
    {
        let value = self.handle(msg, ctx);
        ret(value)
    }
}

/// What [`Handler::process`] does unless it is overridden: the actor handles
/// the message, and what the handling returns goes to the callback, once and
/// at once. The two lines of that default stand here once more, with what
/// they do stated, because a contract on the trait's method would bind the
/// overriding methods too.
///
/// The actor and the context are as `Handler::handle` leaves them, and the
/// callback was called with the value that `Handler::handle` returned.
pub fn handle_and_return<A, T, R>(actor: &mut A, msg: T, ctx: &mut Context<A>, ret: R) where
    A: Handler<T>,
    T: Message,
    R: FnOnce(T::Return) + Send,

    requires
        forall|value: T::Return| ret.requires((value,)),
    ensures
        exists|a: &mut A, c: &mut Context<A>, value: T::Return|
            {
                &&& *a == *old(actor)
                &&& *c == *old(ctx)
                &&& #[trigger] call_ensures(A::handle, (a, msg, c), value)
                &&& ret.ensures((value,), ())
                &&& *final(actor) == *final(a)
                &&& *final(ctx) == *final(c)
            },
{
    let value = actor.handle(msg, ctx);
    ret(value)
}

} // verus!
