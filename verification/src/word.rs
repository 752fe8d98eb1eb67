//! The layout of the words that travel through the mailbox FIFOs.
//!
//! The low four bits of a word name the channel, the upper 28 bits carry the payload:
//! the address of a 16-byte aligned message, as the VideoCore sees it.

use vstd::prelude::*;
use crate::channel::MailboxChannel;

verus! {

/// The bits of a FIFO word that name the channel.
pub const CHANNEL_MASK: u32 = 0x0000_000F;

/// The bits of a FIFO word that carry the payload.
pub const PAYLOAD_MASK: u32 = 0xFFFF_FFF0;

/// The address bits that select the uncached view of memory.
pub const UNCACHED_ALIAS: u32 = 0xC000_0000;

/// The word that carries `data` on the channel numbered `id`. Bits of `data` in the
/// tag's place, and bits of `id` beyond the tag, are dropped.
pub open spec fn tagged(id: u32, data: u32) -> u32 {
    (data & PAYLOAD_MASK) | (id & CHANNEL_MASK)
}

/// The channel number in a FIFO word.
pub open spec fn tag_of(word: u32) -> u32 {
    word & CHANNEL_MASK
}

/// The payload of a FIFO word.
pub open spec fn payload_of(word: u32) -> u32 {
    word & PAYLOAD_MASK
}

/// What `write` puts into the outbound FIFO.
pub open spec fn spec_write(channel: MailboxChannel, data: u32) -> u32 {
    tagged(channel.spec_id(), data)
}

/// What `read` makes of a word taken from the inbound FIFO.
pub open spec fn spec_read(channel: MailboxChannel, word: u32) -> Option<u32> {
    if tag_of(word) == channel.spec_id() {
        Some(payload_of(word))
    } else {
        None
    }
}

/// The address under which the VideoCore reaches the memory at `address`.
pub open spec fn spec_export(address: u32) -> u32 {
    address | UNCACHED_ALIAS
}

/// The address under which the ARM core reaches the memory at bus address `bus`.
pub open spec fn spec_import(bus: u32) -> u32 {
    bus & !UNCACHED_ALIAS
}

/// The word to store in the outbound data register to send `data` over `channel`.
#[verifier::when_used_as_spec(spec_write)]
pub fn write(channel: MailboxChannel, data: u32) -> (word: u32)
    ensures
        word == spec_write(channel, data),
        tag_of(word) == channel.spec_id(),
        payload_of(word) == payload_of(data),
{
    let id = channel.id();
    proof {
        lemma_tagged_parts(id, data);
    }
    (data & PAYLOAD_MASK) | (id & CHANNEL_MASK)
}

/// The payload of a word taken from the inbound data register, if the word is
/// addressed to `channel`; `None` for the traffic of every other channel.
#[verifier::when_used_as_spec(spec_read)]
pub fn read(channel: MailboxChannel, word: u32) -> (data: Option<u32>)
    ensures
        data == spec_read(channel, word),
        data is Some <==> tag_of(word) == channel.spec_id(),
        data matches Some(d) ==> d == payload_of(word) && tag_of(d) == 0,
{
    proof {
        lemma_payload_has_no_tag(word);
    }
    if (word & CHANNEL_MASK) == channel.id() {
        Some(word & PAYLOAD_MASK)
    } else {
        None
    }
}

/// Applies the uncached alias to the address of a message, so that the VideoCore's
/// accesses and the later re-read bypass the data cache.
#[verifier::when_used_as_spec(spec_export)]
pub fn export(address: u32) -> (bus: u32)
    ensures
        bus == spec_export(address),
{
    address | UNCACHED_ALIAS
}

/// Strips the uncached alias from a bus address.
#[verifier::when_used_as_spec(spec_import)]
pub fn import(bus: u32) -> (address: u32)
    ensures
        address == spec_import(bus),
{
    bus & !UNCACHED_ALIAS
}

/// A tagged word holds the tag and the payload it was made from.
pub proof fn lemma_tagged_parts(id: u32, data: u32)
    ensures
        tag_of(tagged(id, data)) == id & CHANNEL_MASK,
        payload_of(tagged(id, data)) == payload_of(data),
        id <= 0xF ==> tag_of(tagged(id, data)) == id,
{
    assert(((data & 0xFFFF_FFF0u32) | (id & 0x0000_000Fu32)) & 0x0000_000Fu32 == id & 0x0000_000Fu32)
        by (bit_vector);
    assert(((data & 0xFFFF_FFF0u32) | (id & 0x0000_000Fu32)) & 0xFFFF_FFF0u32 == data
        & 0xFFFF_FFF0u32) by (bit_vector);
    assert(id <= 0xF ==> id & 0x0000_000Fu32 == id) by (bit_vector);
}

/// A payload has no bit in the tag's place, and is its own payload.
pub proof fn lemma_payload_has_no_tag(word: u32)
    ensures
        tag_of(payload_of(word)) == 0,
        payload_of(payload_of(word)) == payload_of(word),
{
    assert((word & 0xFFFF_FFF0u32) & 0x0000_000Fu32 == 0) by (bit_vector);
    assert((word & 0xFFFF_FFF0u32) & 0xFFFF_FFF0u32 == word & 0xFFFF_FFF0u32) by (bit_vector);
}

/// The tag round trip: for every channel number from 0 to 15 and every 16-byte aligned
/// address, the tagged word gives back exactly the address and exactly the number.
pub proof fn lemma_tag_round_trip(id: u32, address: u32)
    requires
        id <= 0xF,
        address & CHANNEL_MASK == 0,
    ensures
        tagged(id, address) == address | id,
        payload_of(tagged(id, address)) == address,
        tag_of(tagged(id, address)) == id,
{
    assert(id <= 0xF && address & 0x0000_000Fu32 == 0 ==> ((address & 0xFFFF_FFF0u32) | (id
        & 0x0000_000Fu32)) == address | id) by (bit_vector);
    assert(id <= 0xF && address & 0x0000_000Fu32 == 0 ==> (address | id) & 0xFFFF_FFF0u32
        == address) by (bit_vector);
    assert(id <= 0xF && address & 0x0000_000Fu32 == 0 ==> (address | id) & 0x0000_000Fu32
        == id) by (bit_vector);
}

/// What is written for a channel is read back on that channel unchanged, if the
/// address is 16-byte aligned; on every other channel it is passed over.
pub proof fn lemma_write_then_read(channel: MailboxChannel, other: MailboxChannel, address: u32)
    requires
        address & CHANNEL_MASK == 0,
    ensures
        spec_read(channel, spec_write(channel, address)) == Some(address),
        other != channel ==> spec_read(other, spec_write(channel, address)) is None,
{
    lemma_tag_round_trip(channel.spec_id(), address);
}

/// Without alignment the round trip still gives the address rounded down to 16 bytes.
pub proof fn lemma_write_then_read_unaligned(channel: MailboxChannel, data: u32)
    ensures
        spec_read(channel, spec_write(channel, data)) == Some(payload_of(data)),
{
    lemma_tagged_parts(channel.spec_id(), data);
}

/// Exporting and importing an address gives it back without its two top bits; so an
/// address in the first gigabyte comes back unchanged. Flipping the alias bits of an
/// exported address strips them as well.
pub proof fn lemma_export_then_import(address: u32)
    ensures
        spec_import(spec_export(address)) == address & !UNCACHED_ALIAS,
        spec_import(spec_export(address)) == spec_export(address) ^ UNCACHED_ALIAS,
        address < 0x4000_0000 ==> spec_import(spec_export(address)) == address,
        spec_export(address) >= UNCACHED_ALIAS,
{
    assert((address | 0xC000_0000u32) & !0xC000_0000u32 == address & !0xC000_0000u32)
        by (bit_vector);
    assert((address | 0xC000_0000u32) & !0xC000_0000u32 == (address | 0xC000_0000u32)
        ^ 0xC000_0000u32) by (bit_vector);
    assert(address < 0x4000_0000 ==> address & !0xC000_0000u32 == address) by (bit_vector);
    assert((address | 0xC000_0000u32) >= 0xC000_0000u32) by (bit_vector);
}

} // verus!
