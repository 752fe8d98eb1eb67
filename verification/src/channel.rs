//! The logical lanes that are multiplexed over the mailbox.

use vstd::prelude::*;

verus! {

/// The channels a word in the mailbox FIFOs can be addressed to.
#[derive(Copy, Clone, PartialEq, Eq, Structural, Debug)]
pub enum MailboxChannel {
    /// Power management channel
    PowerMgmt,
    /// Framebuffer channel (shall not be used)
    FrameBuffer,
    /// Virtual UART channel
    VirtualUart,
    /// Property tag channel to send from ARM to VideoCore
    PropertyTagsVc,
    /// Property tag channel to send from VideoCore to ARM
    PropertyTagsArm,
}

impl MailboxChannel {
    /// The number that stands for the channel in the low four bits of a FIFO word.
    pub open spec fn spec_id(self) -> u32 {
        match self {
            MailboxChannel::PowerMgmt => 0x0,
            MailboxChannel::FrameBuffer => 0x1,
            MailboxChannel::VirtualUart => 0x2,
            MailboxChannel::PropertyTagsVc => 0x8,
            MailboxChannel::PropertyTagsArm => 0x9,
        }
    }

    /// The number that stands for the channel in the low four bits of a FIFO word.
    #[verifier::when_used_as_spec(spec_id)]
    pub fn id(self) -> (id: u32)
        ensures
            id == self.spec_id(),
            id <= 0xF,
    {
        match self {
            MailboxChannel::PowerMgmt => 0x0,
            MailboxChannel::FrameBuffer => 0x1,
            MailboxChannel::VirtualUart => 0x2,
            MailboxChannel::PropertyTagsVc => 0x8,
            MailboxChannel::PropertyTagsArm => 0x9,
        }
    }
}

/// No two channels share a number, so a word's tag names at most one channel.
pub proof fn lemma_channel_ids_distinct(a: MailboxChannel, b: MailboxChannel)
    ensures
        a.spec_id() == b.spec_id() <==> a == b,
{
}

} // verus!
