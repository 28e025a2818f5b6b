//! The wire packet: four bytes, `[port_index, status_byte, data1, data2]`.
//!
//! The codec is pure. It checks the length of a datagram and nothing else;
//! what a status byte means is decided by the channel mapper.

use vstd::prelude::*;

verus! {

/// Length in bytes of every packet on the wire.
pub const PACKET_LEN: usize = 4;

/// One short MIDI message together with the virtual port it was sent to.
#[derive(Clone, Copy, Debug, PartialEq, Eq, Structural)]
pub struct Packet {
    pub port_index: u8,
    pub status_byte: u8,
    pub data1: u8,
    pub data2: u8,
}

/// The bytes that stand for a packet on the wire.
pub open spec fn wire_bytes(p: Packet) -> Seq<u8> {
    seq![p.port_index, p.status_byte, p.data1, p.data2]
}

/// The packet that a datagram carries, if it carries one: a datagram of any
/// length other than four carries none.
pub open spec fn parse_bytes(bytes: Seq<u8>) -> Option<Packet> {
    if bytes.len() == 4 {
        Some(
            Packet { port_index: bytes[0], status_byte: bytes[1], data1: bytes[2], data2: bytes[3] },
        )
    } else {
        None
    }
}

/// Builds the four-byte wire form of a message.
pub fn encode(port_index: u8, status_byte: u8, data1: u8, data2: u8) -> (buf: [u8; 4])
    ensures
        buf@ == wire_bytes(Packet { port_index, status_byte, data1, data2 }),
{
    let buf = [port_index, status_byte, data1, data2];
    assert(buf@ =~= wire_bytes(Packet { port_index, status_byte, data1, data2 }));
    buf
}

/// Reads a datagram. Exactly the datagrams of four bytes are packets; every
/// other length is rejected, and no byte value is.
pub fn decode(buffer: &[u8]) -> (packet: Option<Packet>)
    ensures
        packet == parse_bytes(buffer@),
        packet.is_some() <==> buffer@.len() == 4,
{
    if buffer.len() == PACKET_LEN {
        Some(
            Packet {
                port_index: buffer[0],
                status_byte: buffer[1],
                data1: buffer[2],
                data2: buffer[3],
            },
        )
    } else {
        None
    }
}

impl Packet {
    /// The wire form of this packet.
    pub fn to_bytes(&self) -> (buf: [u8; 4])
        ensures
            buf@ == wire_bytes(*self),
    {
        encode(self.port_index, self.status_byte, self.data1, self.data2)
    }
}

/// Decoding what was encoded gives the message back, for all byte values.
pub proof fn lemma_decode_encode(port_index: u8, status_byte: u8, data1: u8, data2: u8)
    ensures
        parse_bytes(wire_bytes(Packet { port_index, status_byte, data1, data2 })) == Some(
            Packet { port_index, status_byte, data1, data2 },
        ),
{
}

/// Encoding what was decoded gives the datagram back: no two datagrams
/// carry the same packet.
pub proof fn lemma_encode_decode(bytes: Seq<u8>)
    requires
        bytes.len() == 4,
    ensures
        parse_bytes(bytes) is Some,
        wire_bytes(parse_bytes(bytes).unwrap()) == bytes,
{
    assert(wire_bytes(parse_bytes(bytes).unwrap()) =~= bytes);
}

} // verus!
