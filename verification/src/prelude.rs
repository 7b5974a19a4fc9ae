//! The names that most users of the library need.

pub use crate::actor::{Actor, Context, Handler};
pub use crate::address::Address;
pub use crate::mailbox::Mailbox;
