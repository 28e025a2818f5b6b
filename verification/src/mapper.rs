//! The channel mapper: from a packet to at most one note event, addressed
//! to one channel of the engine's flat channel space.
//!
//! Every port contributes sixteen channels, so the message for channel `c`
//! of port `p` goes to flat channel `16 * p + c`. Addresses at or above the
//! configured channel count are dropped: the engine's channel pool has a
//! fixed size.
//!
//! The velocity ignore range of the engine configuration is not consulted
//! here. It is handed to the synthesizer as part of its configuration, so a
//! note-on and the note-off that ends it are never treated differently by
//! the bridge.

use vstd::prelude::*;
use crate::packet::Packet;
use crate::packet::parse_bytes;
use crate::packet::decode;

verus! {

/// Number of channels that one port contributes.
pub const CHANNELS_PER_PORT: u32 = 16;

/// What a channel is asked to do.
#[derive(Clone, Copy, Debug, PartialEq, Eq, Structural)]
pub enum NoteEvent {
    NoteOn { key: u8, velocity: u8 },
    NoteOff { key: u8 },
}

/// A note event together with the flat channel it is addressed to.
#[derive(Clone, Copy, Debug, PartialEq, Eq, Structural)]
pub struct ChannelEvent {
    pub channel: u32,
    pub event: NoteEvent,
}

/// Whether a status byte is that of a channel-voice message.
pub open spec fn is_channel_voice(status_byte: u8) -> bool {
    0x80 <= status_byte < 0xF0
}

/// The flat channel that a message is addressed to.
pub open spec fn flat_channel(port_index: u8, status_byte: u8) -> int {
    port_index * 16 + (status_byte & 0x0F)
}

/// The note event that a channel-voice message stands for. A note-on with
/// velocity zero is a note-off; message kinds other than the two note
/// messages stand for none.
pub open spec fn note_of(status_byte: u8, data1: u8, data2: u8) -> Option<NoteEvent> {
    if status_byte & 0xF0 == 0x90 && data2 > 0 {
        Some(NoteEvent::NoteOn { key: data1, velocity: data2 })
    } else if status_byte & 0xF0 == 0x80 || status_byte & 0xF0 == 0x90 {
        Some(NoteEvent::NoteOff { key: data1 })
    } else {
        None
    }
}

/// The event that a packet gives rise to with `total_channels` channels
/// configured, if any.
pub open spec fn mapped(p: Packet, total_channels: u32) -> Option<ChannelEvent> {
    if !is_channel_voice(p.status_byte) {
        None
    } else if flat_channel(p.port_index, p.status_byte) >= total_channels {
        None
    } else {
        match note_of(p.status_byte, p.data1, p.data2) {
            Some(event) => Some(
                ChannelEvent { channel: flat_channel(p.port_index, p.status_byte) as u32, event },
            ),
            None => None,
        }
    }
}

/// The event that a datagram gives rise to, if any.
pub open spec fn datagram_event(bytes: Seq<u8>, total_channels: u32) -> Option<ChannelEvent> {
    match parse_bytes(bytes) {
        Some(p) => mapped(p, total_channels),
        None => None,
    }
}

/// The low nibble of a byte is its remainder by sixteen.
pub proof fn lemma_low_nibble(b: u8)
    ensures
        b & 0x0F == b % 16,
        0 <= b & 0x0F < 16,
{
    assert(b & 0x0F == b % 16) by (bit_vector);
}

/// The high nibble of a byte is the byte less its remainder by sixteen.
pub proof fn lemma_high_nibble(b: u8)
    ensures
        b & 0xF0 == b - b % 16,
        b & 0xF0 == 0x80 <==> 0x80 <= b < 0x90,
        b & 0xF0 == 0x90 <==> 0x90 <= b < 0xA0,
{
    assert(b & 0xF0 == b - b % 16) by (bit_vector);
}

/// Computes the flat channel of a message: sixteen channels per port, the
/// channel within the port taken from the low nibble of the status byte.
pub fn target_channel(port_index: u8, status_byte: u8) -> (channel: u32)
    ensures
        channel == flat_channel(port_index, status_byte),
        channel == port_index * 16 + status_byte % 16,
        channel < 4096,
{
    proof {
        lemma_low_nibble(status_byte);
    }
    let within_port: u8 = status_byte & 0x0F;
    port_index as u32 * CHANNELS_PER_PORT + within_port as u32
}

/// Classifies a message by the high nibble of its status byte.
pub fn classify(status_byte: u8, data1: u8, data2: u8) -> (event: Option<NoteEvent>)
    ensures
        event == note_of(status_byte, data1, data2),
{
    let kind: u8 = status_byte & 0xF0;
    if kind == 0x90 && data2 > 0 {
        Some(NoteEvent::NoteOn { key: data1, velocity: data2 })
    } else if kind == 0x80 || kind == 0x90 {
        Some(NoteEvent::NoteOff { key: data1 })
    } else {
        None
    }
}

/// Maps a packet to the event it gives rise to, or to none.
///
/// None comes back exactly when the status byte is outside `0x80..0xF0`,
/// when the address is not below `total_channels`, or when the message is
/// neither a note-on nor a note-off.
pub fn map_packet(packet: Packet, total_channels: u32) -> (out: Option<ChannelEvent>)
    ensures
        out == mapped(packet, total_channels),
{
    if packet.status_byte < 0x80 || packet.status_byte >= 0xF0 {
        return None;
    }
    let channel = target_channel(packet.port_index, packet.status_byte);
    if channel >= total_channels {
        return None;
    }
    match classify(packet.status_byte, packet.data1, packet.data2) {
        Some(event) => Some(ChannelEvent { channel, event }),
        None => None,
    }
}

/// Handles one received datagram: decodes it, maps it, and returns the
/// event to forward to the engine, if there is one. A datagram that is not
/// a packet, or whose packet maps to nothing, is dropped without error.
pub fn handle_datagram(datagram: &[u8], total_channels: u32) -> (out: Option<ChannelEvent>)
    ensures
        out == datagram_event(datagram@, total_channels),
{
    match decode(datagram) {
        Some(packet) => map_packet(packet, total_channels),
        None => None,
    }
}

/// Every note message of every port is addressed to sixteen times the port
/// plus the channel within the port, and that address is what a mapped
/// event carries.
pub proof fn lemma_target_channel(p: Packet, total_channels: u32)
    requires
        p.status_byte & 0xF0 == 0x80 || p.status_byte & 0xF0 == 0x90,
    ensures
        flat_channel(p.port_index, p.status_byte) == p.port_index * 16 + (p.status_byte & 0x0F),
        flat_channel(p.port_index, p.status_byte) == p.port_index * 16 + p.status_byte % 16,
        mapped(p, total_channels) matches Some(e) ==> e.channel == p.port_index * 16 + (
        p.status_byte & 0x0F),
        flat_channel(p.port_index, p.status_byte) < total_channels ==> mapped(
            p,
            total_channels,
        ) is Some,
{
    lemma_low_nibble(p.status_byte);
    lemma_high_nibble(p.status_byte);
}

/// No event is ever addressed at or above the configured channel count:
/// a message whose address is out of range maps to nothing, and every
/// event that comes out has a channel in range.
pub proof fn lemma_channel_bound(p: Packet, total_channels: u32)
    ensures
        flat_channel(p.port_index, p.status_byte) >= total_channels ==> mapped(
            p,
            total_channels,
        ) is None,
        mapped(p, total_channels) matches Some(e) ==> e.channel < total_channels,
{
    lemma_low_nibble(p.status_byte);
}

/// A note-on with velocity zero and a note-off with any velocity are the
/// same event: which of the two status codes was sent makes no difference.
pub proof fn lemma_note_off(status_byte: u8, data1: u8, data2: u8)
    requires
        (status_byte & 0xF0 == 0x90 && data2 == 0) || status_byte & 0xF0 == 0x80,
    ensures
        note_of(status_byte, data1, data2) == Some(NoteEvent::NoteOff { key: data1 }),
{
}

/// A note-on with a velocity above zero keeps its key and its velocity.
pub proof fn lemma_note_on(status_byte: u8, data1: u8, data2: u8)
    requires
        status_byte & 0xF0 == 0x90,
        data2 > 0,
    ensures
        note_of(status_byte, data1, data2) == Some(
            NoteEvent::NoteOn { key: data1, velocity: data2 },
        ),
{
}

/// Whether a note is switched on or off never decides whether its message
/// is forwarded: a note-on and a note-off with the same port, channel and
/// key are both mapped or both dropped, and go to the same channel.
pub proof fn lemma_note_pairing(port_index: u8, channel: u8, key: u8, velocity: u8, release: u8, total_channels: u32)
    requires
        channel < 16,
    ensures
        ({
            let on = Packet {
                port_index,
                status_byte: (0x90 + channel) as u8,
                data1: key,
                data2: velocity,
            };
            let off = Packet {
                port_index,
                status_byte: (0x80 + channel) as u8,
                data1: key,
                data2: release,
            };
            &&& mapped(on, total_channels) is Some <==> mapped(off, total_channels) is Some
            &&& mapped(on, total_channels) is Some ==> mapped(on, total_channels).unwrap().channel
                == mapped(off, total_channels).unwrap().channel
        }),
{
    let s_on = (0x90 + channel) as u8;
    let s_off = (0x80 + channel) as u8;
    lemma_low_nibble(s_on);
    lemma_low_nibble(s_off);
    lemma_high_nibble(s_on);
    lemma_high_nibble(s_off);
}

} // verus!
