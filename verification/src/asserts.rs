//! Compile-time assertions that a type meets one of the library's contracts.
//! Each function does nothing when called: that the call compiles is what it
//! asserts.

use crate::actor::Handler;
use crate::message::{Message, Wrap};
use vstd::prelude::*;

verus! {

/// Holds if `T` is a message whose return type is `U`.
pub fn assert_message<T, U>() where T: Message<Return = U> {
}

/// Holds if `T` can carry a message of type `U`.
pub fn assert_wrap<T, U>() where T: Wrap<U>, U: Message {
}

/// Holds if `T` is an actor that handles messages of type `U`.
pub fn assert_handler<T, U>() where T: Handler<U>, U: Message {
}

} // verus!
