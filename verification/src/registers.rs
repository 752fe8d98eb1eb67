//! The four register ports of the mailbox and the flags in its status words.

use vstd::prelude::*;

verus! {

/// Base address of the memory mapped peripherals.
pub const PERIPHERAL_BASE: u32 = 0x3F00_0000;

/// Base address of the mailbox registers.
pub const MAILBOX_BASE: u32 = PERIPHERAL_BASE + 0x0000_B880;

/// Flag of the outbound status word: the outbound FIFO takes no further word.
pub const MAILBOX_FULL: u32 = 0x8000_0000;

/// Flag of the inbound status word: the inbound FIFO holds no word.
pub const MAILBOX_EMPTY: u32 = 0x4000_0000;

/// One of the four 32-bit registers of the mailbox. Each is either read or written,
/// never both.
#[derive(Copy, Clone, PartialEq, Eq, Structural, Debug)]
pub enum Port {
    /// Head of the inbound FIFO; reading it takes the word out.
    InboundData,
    /// Status of the inbound FIFO.
    InboundStatus,
    /// Tail of the outbound FIFO; a word stored here is sent.
    OutboundData,
    /// Status of the outbound FIFO.
    OutboundStatus,
}

impl Port {
    /// Distance of the register from the mailbox base.
    pub open spec fn spec_offset(self) -> u32 {
        match self {
            Port::InboundData => 0x00,
            Port::InboundStatus => 0x18,
            Port::OutboundData => 0x20,
            Port::OutboundStatus => 0x38,
        }
    }

    /// Address of the register.
    pub open spec fn spec_address(self) -> u32 {
        (MAILBOX_BASE + self.spec_offset()) as u32
    }

    /// Whether the register is written rather than read.
    pub open spec fn spec_is_write_only(self) -> bool {
        self == Port::OutboundData
    }

    /// Distance of the register from the mailbox base.
    #[verifier::when_used_as_spec(spec_offset)]
    pub fn offset(self) -> (offset: u32)
        ensures
            offset == self.spec_offset(),
    {
        match self {
            Port::InboundData => 0x00,
            Port::InboundStatus => 0x18,
            Port::OutboundData => 0x20,
            Port::OutboundStatus => 0x38,
        }
    }

    /// Address of the register.
    #[verifier::when_used_as_spec(spec_address)]
    pub fn address(self) -> (address: u32)
        ensures
            address == self.spec_address(),
            address == 0x3F00_B880 + self.spec_offset(),
    {
        MAILBOX_BASE + self.offset()
    }

    /// Whether the register is written rather than read.
    #[verifier::when_used_as_spec(spec_is_write_only)]
    pub fn is_write_only(self) -> (write_only: bool)
        ensures
            write_only == self.spec_is_write_only(),
    {
        match self {
            Port::OutboundData => true,
            _ => false,
        }
    }
}

/// Whether an outbound status word has the "full" flag set.
pub open spec fn spec_is_full(status: u32) -> bool {
    status & MAILBOX_FULL != 0
}

/// Whether an inbound status word has the "empty" flag set.
pub open spec fn spec_is_empty(status: u32) -> bool {
    status & MAILBOX_EMPTY != 0
}

/// Whether an outbound status word has the "full" flag set.
#[verifier::when_used_as_spec(spec_is_full)]
pub fn is_full(status: u32) -> (full: bool)
    ensures
        full == spec_is_full(status),
{
    status & MAILBOX_FULL != 0
}

/// Whether an inbound status word has the "empty" flag set.
#[verifier::when_used_as_spec(spec_is_empty)]
pub fn is_empty(status: u32) -> (empty: bool)
    ensures
        empty == spec_is_empty(status),
{
    status & MAILBOX_EMPTY != 0
}

} // verus!
