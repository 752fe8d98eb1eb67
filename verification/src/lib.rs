//! Transport for the mailbox between the ARM cores and the VideoCore of a Raspberry Pi.
//!
//! The crate holds every decision of one request/response exchange: the layout of the
//! words in the two FIFOs, the four register ports, the order in which cache,
//! registers and memory are touched, and the judgement of the response. The hardware
//! itself stays with the caller, who performs one action at a time and reports what it
//! read.

pub mod channel;
pub mod exchange;
pub mod message;
pub mod registers;
pub mod trace;
pub mod word;

pub use channel::MailboxChannel;
pub use exchange::{Action, Event, Exchange, Phase};
pub use message::{MailboxMessage, MailboxResult, MessageState, SEND_FAILED};
pub use registers::{Port, MAILBOX_BASE, MAILBOX_EMPTY, MAILBOX_FULL, PERIPHERAL_BASE};
pub use word::{CHANNEL_MASK, PAYLOAD_MASK, UNCACHED_ALIAS};
