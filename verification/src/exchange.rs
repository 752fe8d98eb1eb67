//! One request/response exchange, step by step.
//!
//! An exchange touches the hardware in a fixed order: clean and invalidate the data
//! cache, wait for room in the outbound FIFO, post the tagged bus address of the
//! message, wait for the answer on the same channel, clean and invalidate the cache
//! again, and read the message back. `Exchange` holds where in that order an exchange
//! stands. It never touches the hardware itself: `pending` names the one action that
//! is due, the caller performs it and reports what came of it to `step`.

use vstd::prelude::*;
use crate::channel::MailboxChannel;
use crate::registers::{is_empty, is_full, spec_is_empty, spec_is_full, Port};
use crate::word::{export, import, read, spec_export, spec_import, spec_read, spec_write};

verus! {

/// Where an exchange stands.
#[derive(Copy, Clone, PartialEq, Eq, Structural, Debug)]
pub enum Phase {
    /// The data cache is to be cleaned and invalidated, so that the VideoCore sees
    /// what was written to the message.
    Clean,
    /// Waiting for the outbound FIFO to take a word.
    AwaitSpace,
    /// The outbound FIFO has room; the word is to be posted.
    Post,
    /// Waiting for the inbound FIFO to hold a word.
    AwaitResponse,
    /// The inbound FIFO holds a word; it is to be taken out.
    Fetch,
    /// The answer has arrived; the data cache is to be cleaned and invalidated again,
    /// so that the ARM core sees what the VideoCore wrote to the message.
    Refresh,
    /// The message is to be read back from memory. Nothing follows.
    Reload,
}

/// What the caller is to do with the hardware.
#[derive(Copy, Clone, PartialEq, Eq, Structural, Debug)]
pub enum Action {
    /// Clean and invalidate the data cache, then report `Event::Done`.
    CleanInvalidate,
    /// Read the register once and report the word as `Event::Word`.
    Read(Port),
    /// Store the word to the register, then report `Event::Done`.
    Write(Port, u32),
    /// Read the whole message back from the address with a volatile read. The
    /// exchange is over; the message is judged by its state.
    Reload(u32),
}

/// What came of an action.
#[derive(Copy, Clone, PartialEq, Eq, Structural, Debug)]
pub enum Event {
    /// The action has been performed; it gave no value.
    Done,
    /// The word that the action read.
    Word(u32),
}

/// The state of one exchange.
#[derive(Copy, Clone, PartialEq, Eq, Structural, Debug)]
pub struct Exchange {
    /// The channel the message is sent on and the answer is awaited on.
    pub channel: MailboxChannel,
    /// The bus address of the message: its address with the uncached alias applied.
    pub bus: u32,
    /// How far the exchange has come.
    pub phase: Phase,
}

impl Exchange {
    /// The state of an exchange that has not yet touched the hardware.
    pub open spec fn spec_new(channel: MailboxChannel, address: u32) -> Exchange {
        Exchange { channel, bus: spec_export(address), phase: Phase::Clean }
    }

    /// The action that is due in this state.
    pub open spec fn spec_pending(self) -> Action {
        match self.phase {
            Phase::Clean => Action::CleanInvalidate,
            Phase::AwaitSpace => Action::Read(Port::OutboundStatus),
            Phase::Post => Action::Write(Port::OutboundData, spec_write(self.channel, self.bus)),
            Phase::AwaitResponse => Action::Read(Port::InboundStatus),
            Phase::Fetch => Action::Read(Port::InboundData),
            Phase::Refresh => Action::CleanInvalidate,
            Phase::Reload => Action::Reload(spec_import(self.bus)),
        }
    }

    /// The phase that follows when `event` is reported for the pending action. While
    /// the outbound FIFO is full, while the inbound FIFO is empty, and after a word
    /// for another channel, the exchange goes on waiting. An event of the wrong kind
    /// answers nothing: the phase stays.
    pub open spec fn next_phase(self, event: Event) -> Phase {
        match (self.phase, event) {
            (Phase::Clean, Event::Done) => Phase::AwaitSpace,
            (Phase::AwaitSpace, Event::Word(status)) => if spec_is_full(status) {
                Phase::AwaitSpace
            } else {
                Phase::Post
            },
            (Phase::Post, Event::Done) => Phase::AwaitResponse,
            (Phase::AwaitResponse, Event::Word(status)) => if spec_is_empty(status) {
                Phase::AwaitResponse
            } else {
                Phase::Fetch
            },
            (Phase::Fetch, Event::Word(word)) => if spec_read(self.channel, word) is Some {
                Phase::Refresh
            } else {
                Phase::AwaitResponse
            },
            (Phase::Refresh, Event::Done) => Phase::Reload,
            (phase, _) => phase,
        }
    }

    /// The state that follows when `event` is reported for the pending action.
    pub open spec fn spec_step(self, event: Event) -> Exchange {
        Exchange { channel: self.channel, bus: self.bus, phase: self.next_phase(event) }
    }

    /// Begins the exchange that sends the message at `address` over `channel`. The
    /// address is kept with the uncached alias applied.
    #[verifier::when_used_as_spec(spec_new)]
    pub fn new(channel: MailboxChannel, address: u32) -> (exchange: Exchange)
        ensures
            exchange == Self::spec_new(channel, address),
            exchange.channel == channel,
            exchange.bus == address | 0xC000_0000u32,
            exchange.phase == Phase::Clean,
    {
        Exchange { channel, bus: export(address), phase: Phase::Clean }
    }

    /// The action that is due. A register is only ever read if it can be read, and
    /// written if it can be written.
    #[verifier::when_used_as_spec(spec_pending)]
    pub fn pending(self) -> (action: Action)
        ensures
            action == self.spec_pending(),
            action matches Action::Read(port) ==> !port.spec_is_write_only(),
            action matches Action::Write(port, _) ==> port.spec_is_write_only(),
    {
        match self.phase {
            Phase::Clean | Phase::Refresh => Action::CleanInvalidate,
            Phase::AwaitSpace => Action::Read(Port::OutboundStatus),
            Phase::Post => Action::Write(Port::OutboundData, crate::word::write(self.channel, self.bus)),
            Phase::AwaitResponse => Action::Read(Port::InboundStatus),
            Phase::Fetch => Action::Read(Port::InboundData),
            Phase::Reload => Action::Reload(import(self.bus)),
        }
    }

    /// Takes the report of the pending action and moves on. The request, channel and
    /// bus address, stays as it is.
    #[verifier::when_used_as_spec(spec_step)]
    pub fn step(self, event: Event) -> (next: Exchange)
        ensures
            next == self.spec_step(event),
            next.channel == self.channel,
            next.bus == self.bus,
    {
        let phase = match event {
            Event::Done => match self.phase {
                Phase::Clean => Phase::AwaitSpace,
                Phase::Post => Phase::AwaitResponse,
                Phase::Refresh => Phase::Reload,
                waiting => waiting,
            },
            Event::Word(word) => match self.phase {
                Phase::AwaitSpace => if is_full(word) {
                    Phase::AwaitSpace
                } else {
                    Phase::Post
                },
                Phase::AwaitResponse => if is_empty(word) {
                    Phase::AwaitResponse
                } else {
                    Phase::Fetch
                },
                Phase::Fetch => match read(self.channel, word) {
                    Some(_) => Phase::Refresh,
                    None => Phase::AwaitResponse,
                },
                acting => acting,
            },
        };
        Exchange { channel: self.channel, bus: self.bus, phase }
    }

    /// Whether the exchange is over: all that is left is to read the message back.
    pub fn is_over(self) -> (over: bool)
        ensures
            over == (self.phase == Phase::Reload),
            over == (self.spec_pending() is Reload),
    {
        match self.phase {
            Phase::Reload => true,
            _ => false,
        }
    }
}

} // verus!
