//! An in-process actor messaging core: typed messages are delivered to a
//! sequentially processing actor through a mailbox, and a computed value may
//! travel back to the sender.

pub mod actor;
pub mod address;
pub mod asserts;
pub mod channel;
pub mod envelope;
pub mod error;
pub mod futures;
pub mod mailbox;
pub mod message;
pub mod run;
pub mod task;

pub use actor::{Actor, Context, ContextView, Handler};
pub use address::Address;
pub use asserts::{assert_handler, assert_message, assert_wrap};
pub use channel::ResponseSender;
pub use envelope::Envelope;
pub use error::Error;
pub use mailbox::{enveloped, mailbox, unbounded_mailbox, IntoMail, IntoMailbox, Mailbox};
pub use message::{Dispatch, Message, Wrap};
pub use run::{run, Phase, Runner};

/// The names that most users of the library need.
pub mod prelude;
