//! The types of `std::task` that the polling operations of this library take
//! and return.

use vstd::prelude::*;

verus! {

/// `std::task::Poll`, with both of its variants visible: `Ready` carries the
/// value that an operation resolved with, `Pending` says that it has not
/// resolved yet.
#[verifier::external_type_specification]
#[verifier::reject_recursive_types(T)]
pub struct ExPoll<T>(std::task::Poll<T>);

/// The task context of `std::task`, carried through to the channel
/// operations, which take the waker of the polling task from it. Nothing in
/// this library looks inside.
#[verifier::external_type_specification]
#[verifier::external_body]
pub struct ExTaskContext<'a>(std::task::Context<'a>);

} // verus!
