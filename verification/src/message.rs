//! What the transport needs to know of a message: the state it carries.

use vstd::prelude::*;

verus! {

/// The states a message can be in. A message goes out as a request; the VideoCore
/// overwrites the state in place with one of the two responses.
#[derive(Copy, Clone, PartialEq, Eq, Structural, Debug)]
pub enum MessageState {
    /// All outgoing messages are of the request type
    Request,
    /// The message has been successfully processed by the receiver
    ResponseOk,
    /// The message has not, or only partly, been processed by the receiver
    ResponseError,
}

impl MessageState {
    /// The word that stands for the state inside a message.
    pub open spec fn spec_value(self) -> u32 {
        match self {
            MessageState::Request => 0x0000_0000,
            MessageState::ResponseOk => 0x8000_0000,
            MessageState::ResponseError => 0x8000_0001,
        }
    }

    /// The state that a word stands for; `None` for a word that stands for none.
    pub open spec fn spec_from_value(value: u32) -> Option<MessageState> {
        if value == 0x0000_0000 {
            Some(MessageState::Request)
        } else if value == 0x8000_0000 {
            Some(MessageState::ResponseOk)
        } else if value == 0x8000_0001 {
            Some(MessageState::ResponseError)
        } else {
            None
        }
    }

    /// The word that stands for the state inside a message.
    #[verifier::when_used_as_spec(spec_value)]
    pub fn value(self) -> (value: u32)
        ensures
            value == self.spec_value(),
    {
        match self {
            MessageState::Request => 0x0000_0000,
            MessageState::ResponseOk => 0x8000_0000,
            MessageState::ResponseError => 0x8000_0001,
        }
    }

    /// The state that a word stands for; `None` for a word that stands for none.
    #[verifier::when_used_as_spec(spec_from_value)]
    pub fn from_value(value: u32) -> (state: Option<MessageState>)
        ensures
            state == Self::spec_from_value(value),
            match state {
                Some(s) => s.spec_value() == value,
                None => forall|s: MessageState| s.spec_value() != value,
            },
    {
        if value == MessageState::Request.value() {
            Some(MessageState::Request)
        } else if value == MessageState::ResponseOk.value() {
            Some(MessageState::ResponseOk)
        } else if value == MessageState::ResponseError.value() {
            Some(MessageState::ResponseError)
        } else {
            None
        }
    }
}

/// Trait each mailbox property tag message needs to implement. The transport reads
/// nothing of a message but its state.
pub trait MailboxMessage {
    /// Reads the state word of the message.
    fn get_state(&self) -> u32;
}

/// Type alias for the results of the functions that deal with messages
pub type MailboxResult<T> = Result<T, &'static str>;

/// The text that reports a failed exchange.
pub const SEND_FAILED: &'static str = "unable to send mailbox property tag message.";

/// What is made of a message that was read back after an exchange and holds the state
/// word `state`: the message itself if the word stands for `ResponseOk`, the error
/// otherwise.
pub open spec fn spec_judge<T>(state: u32, message: T) -> MailboxResult<T> {
    if state == MessageState::ResponseOk.spec_value() {
        Ok(message)
    } else {
        Err(SEND_FAILED)
    }
}

/// Judges a message that was read back after an exchange by its state word. The
/// message is handed out, whole and unchanged, exactly if the word stands for
/// `ResponseOk`. With any other word, be it `ResponseError`, `Request` or one that
/// stands for no state, the message is dropped and the one error of the transport is
/// returned.
#[verifier::when_used_as_spec(spec_judge)]
pub fn judge<T>(state: u32, message: T) -> (result: MailboxResult<T>)
    ensures
        result == spec_judge(state, message),
        result is Ok <==> state == 0x8000_0000u32,
        result matches Ok(m) ==> m == message,
        result matches Err(text) ==> text == SEND_FAILED,
{
    match MessageState::from_value(state) {
        Some(MessageState::ResponseOk) => Ok(message),
        _ => Err(SEND_FAILED),
    }
}

/// Judges a message that was read back after an exchange: reads its state word and
/// hands the message out or reports the error, as `judge` says for that word.
pub fn conclude<T: MailboxMessage>(message: T) -> (result: MailboxResult<T>)
    ensures
        exists|state: u32| #[trigger]
            call_ensures(T::get_state, (&message,), state) && result == spec_judge(
                state,
                message,
            ),
{
    let state = message.get_state();
    let ghost read_back = message;
    let result = judge(state, message);
    assert(call_ensures(T::get_state, (&read_back,), state) && result == spec_judge(
        state,
        read_back,
    ));
    result
}

} // verus!
