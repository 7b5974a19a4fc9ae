//! What a message is, and how one message type is carried inside another.

use crate::actor::{Actor, Context};
use crate::error::Error;
use vstd::prelude::*;

verus! {

/// A message type.
pub trait Message: Send + Unpin + 'static {
    /// The return value of the message.
    type Return: Send + Unpin + 'static;
}

/// A message which can wrap another type of message.
pub trait Wrap<T: Message>: From<T> + Message {
    /// Unwraps the return value of the message.
    fn unwrap_return(ret: Self::Return) -> Result<T::Return, Error>;
}

impl<T: Message> Wrap<T> for T {
    /// A message type carries itself: the return value is handed on as it is.
    fn unwrap_return(ret: Self::Return) -> (r: Result<T::Return, Error>)
        ensures
            r == Ok::<T::Return, Error>(ret),
    {
        Ok(ret)
    }
}

/// A message which can be dispatched to an actor.
pub trait Dispatch<A: Actor>: Message {
    /// Dispatches the message and return channel to the actor for handling.
    ///
    /// The handling runs to its end, and hands its return value to `ret` at
    /// most once. `ret` has to take every return value.
    ///
    /// # Arguments
    ///
    /// * `actor` - The actor which will handle the message.
    /// * `ctx` - The context of the actor.
    /// * `ret` - A channel which returns a value to the caller.
    fn dispatch<R: FnOnce(Self::Return) + Send>(self, actor: &mut A, ctx: &mut Context<A>, ret: R)
        requires
            forall|value: Self::Return| ret.requires((value,)),
    ;
}

} // verus!
