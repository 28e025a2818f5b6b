//! The driver side of the bridge: what the multimedia driver answers to
//! its host, and the packet it emits for a short MIDI message.
//!
//! The host talks to a driver through two entry points. `DriverProc` takes
//! the messages of the driver's own life cycle; `modMessage` takes the
//! messages of a MIDI output port. Both are decided here, on plain values.
//! Writing through the host's pointers and sending on the socket is left
//! to the exported functions that wrap these two.

use vstd::prelude::*;
use crate::decimal::as_units;
use crate::decimal::decimal_digits;
use crate::decimal::lemma_decimal_digits;
use crate::decimal::lemma_decimal_len_machine;
use crate::decimal::push_decimal_units;
use crate::packet::Packet;

verus! {

pub const MODM_GETNUMDEVS: u32 = 1;

pub const MODM_GETDEVCAPS: u32 = 2;

pub const MODM_OPEN: u32 = 3;

pub const MODM_CLOSE: u32 = 4;

pub const MODM_PREPARE: u32 = 5;

pub const MODM_UNPREPARE: u32 = 6;

pub const MODM_DATA: u32 = 7;

pub const MODM_LONGDATA: u32 = 8;

pub const MMSYSERR_NOERROR: u32 = 0;

pub const MMSYSERR_NOTSUPPORTED: u32 = 11;

pub const MOD_MIDIPORT: u16 = 1;

/// Number of virtual ports that the driver offers.
pub const PORT_COUNT: u32 = 16;

/// Length of the name field of [`MIDIOUTCAPSW`], in UTF-16 units.
pub const PORT_NAME_CAPACITY: usize = 32;

/// The capabilities of a MIDI output port, as the host reads them.
#[allow(non_camel_case_types)]
#[derive(Clone, Copy, Debug)]
pub struct MIDIOUTCAPSW {
    pub w_mid: u16,
    pub w_pid: u16,
    pub v_driver_version: u32,
    pub sz_pname: [u16; 32],
    pub w_technology: u16,
    pub w_voices: u16,
    pub w_notes: u16,
    pub w_channel_mask: u16,
    pub dw_support: u32,
}

/// What the exported `modMessage` has to do besides answering.
#[derive(Clone, Copy, Debug, PartialEq, Eq, Structural)]
pub enum DriverEffect {
    /// Nothing.
    Nothing,
    /// Describe the port in the structure that the host pointed to.
    DescribePort,
    /// Bind the send socket, unless it is bound already.
    OpenSocket,
    /// Send this packet, if the send socket is bound.
    Send(Packet),
}

/// The answer to a port message: the code for the host, and the effect.
#[derive(Clone, Copy, Debug, PartialEq, Eq, Structural)]
pub struct DriverReply {
    pub code: u32,
    pub effect: DriverEffect,
}

/// The answer to a message of the driver's life cycle: the six messages
/// from load to close are accepted, every other is not handled.
pub open spec fn driver_proc_reply(u_msg: u32) -> usize {
    if 1 <= u_msg <= 6 {
        1
    } else {
        0
    }
}

/// The packet that a short MIDI message becomes. The host packs the
/// message into one word, status byte lowest; the port is the device
/// number, of which the low byte is kept.
pub open spec fn short_message(u_device_id: u32, param1: usize) -> Packet {
    Packet {
        port_index: (u_device_id % 256) as u8,
        status_byte: (param1 % 256) as u8,
        data1: ((param1 / 256) % 256) as u8,
        data2: ((param1 / 65536) % 256) as u8,
    }
}

/// The answer to a port message.
pub open spec fn mod_message_reply(u_device_id: u32, u_msg: u32, param1: usize) -> DriverReply {
    if u_msg == MODM_GETNUMDEVS {
        DriverReply { code: PORT_COUNT, effect: DriverEffect::Nothing }
    } else if u_msg == MODM_GETDEVCAPS {
        DriverReply {
            code: MMSYSERR_NOERROR,
            effect: if param1 != 0 {
                DriverEffect::DescribePort
            } else {
                DriverEffect::Nothing
            },
        }
    } else if u_msg == MODM_OPEN {
        DriverReply { code: MMSYSERR_NOERROR, effect: DriverEffect::OpenSocket }
    } else if u_msg == MODM_DATA {
        DriverReply {
            code: MMSYSERR_NOERROR,
            effect: DriverEffect::Send(short_message(u_device_id, param1)),
        }
    } else if u_msg == MODM_CLOSE || u_msg == MODM_PREPARE || u_msg == MODM_UNPREPARE {
        DriverReply { code: MMSYSERR_NOERROR, effect: DriverEffect::Nothing }
    } else {
        DriverReply { code: MMSYSERR_NOTSUPPORTED, effect: DriverEffect::Nothing }
    }
}

/// The UTF-16 units of `"XXSynth Port "`.
pub open spec fn port_name_prefix() -> Seq<u16> {
    seq![88u16, 88u16, 83u16, 121u16, 110u16, 116u16, 104u16, 32u16, 80u16, 111u16, 114u16, 116u16,
        32u16]
}

/// The name of a port as the host shows it: `"XXSynth Port "`, the number
/// of the port counted from one, and the terminating zero.
pub open spec fn port_name(u_device_id: u32) -> Seq<u16> {
    (port_name_prefix() + as_units(decimal_digits((u_device_id + 1) as nat))).push(0u16)
}

/// What `describe_port` leaves in the structure: the fixed capabilities of
/// a port, and its name at the start of the name field. The part of the
/// name field behind the name is left as it was.
pub open spec fn described(before: MIDIOUTCAPSW, after: MIDIOUTCAPSW, u_device_id: u32) -> bool {
    let name = port_name(u_device_id);
    &&& after.w_mid == 0xFFFF
    &&& after.w_pid == 0xFFFF
    &&& after.v_driver_version == 0x0100
    &&& after.w_technology == MOD_MIDIPORT
    &&& after.w_voices == 256
    &&& after.w_notes == 256
    &&& after.w_channel_mask == 0xFFFF
    &&& after.dw_support == 0
    &&& name.len() <= 32
    &&& forall|i: int| 0 <= i < name.len() ==> after.sz_pname@[i] == name[i]
    &&& forall|i: int| name.len() <= i < 32 ==> after.sz_pname@[i] == before.sz_pname@[i]
}

/// Answers a message of the driver's life cycle.
#[allow(non_snake_case)]
pub fn DriverProc(_id: u32, _h_driver: usize, u_msg: u32, _param1: usize, _param2: usize) -> (reply:
    usize)
    ensures
        reply == driver_proc_reply(u_msg),
{
    match u_msg {
        0x0001 | 0x0002 | 0x0003 | 0x0004 | 0x0005 | 0x0006 => 1,
        _ => 0,
    }
}

/// Unpacks a short MIDI message and addresses it to its port.
pub fn short_message_packet(u_device_id: u32, param1: usize) -> (packet: Packet)
    ensures
        packet == short_message(u_device_id, param1),
{
    let msg: u32 = #[verifier::truncate]
    (param1 as u32);
    let status: u8 = (msg & 0xFF) as u8;
    let data1: u8 = ((msg >> 8) & 0xFF) as u8;
    let data2: u8 = ((msg >> 16) & 0xFF) as u8;
    let port: u8 = (u_device_id & 0xFF) as u8;
    proof {
        assert((param1 as u32) & 0xFF == param1 % 256) by (bit_vector);
        assert(((param1 as u32) >> 8) & 0xFF == (param1 / 256) % 256) by (bit_vector);
        assert(((param1 as u32) >> 16) & 0xFF == (param1 / 65536) % 256) by (bit_vector);
        assert(u_device_id & 0xFF == u_device_id % 256) by (bit_vector);
    }
    Packet { port_index: port, status_byte: status, data1, data2 }
}

/// Answers a port message, and says what is to be done for it.
#[allow(non_snake_case)]
pub fn modMessage(u_device_id: u32, u_msg: u32, _user: usize, param1: usize, _param2: usize) -> (reply:
    DriverReply)
    ensures
        reply == mod_message_reply(u_device_id, u_msg, param1),
{
    if u_msg == MODM_GETNUMDEVS {
        DriverReply { code: PORT_COUNT, effect: DriverEffect::Nothing }
    } else if u_msg == MODM_GETDEVCAPS {
        let effect = if param1 != 0 {
            DriverEffect::DescribePort
        } else {
            DriverEffect::Nothing
        };
        DriverReply { code: MMSYSERR_NOERROR, effect }
    } else if u_msg == MODM_OPEN {
        DriverReply { code: MMSYSERR_NOERROR, effect: DriverEffect::OpenSocket }
    } else if u_msg == MODM_DATA {
        let packet = short_message_packet(u_device_id, param1);
        DriverReply { code: MMSYSERR_NOERROR, effect: DriverEffect::Send(packet) }
    } else if u_msg == MODM_CLOSE || u_msg == MODM_PREPARE || u_msg == MODM_UNPREPARE {
        DriverReply { code: MMSYSERR_NOERROR, effect: DriverEffect::Nothing }
    } else {
        DriverReply { code: MMSYSERR_NOTSUPPORTED, effect: DriverEffect::Nothing }
    }
}

/// The name of every port fits the name field with room to spare.
pub proof fn lemma_port_name_fits(u_device_id: u32)
    ensures
        15 <= port_name(u_device_id).len() <= 24,
{
    lemma_decimal_len_machine((u_device_id + 1) as nat);
    lemma_decimal_digits((u_device_id + 1) as nat);
}

/// The prefix of the port name spells `"XXSynth Port "`.
pub proof fn lemma_port_name_prefix()
    ensures
        port_name_prefix() == "XXSynth Port "@.map(|i: int, c: char| c as u16),
{
    reveal_strlit("XXSynth Port ");
    assert(port_name_prefix() =~= "XXSynth Port "@.map(|i: int, c: char| c as u16));
}

/// Builds the name of a port.
pub fn port_name_units(u_device_id: u32) -> (name: Vec<u16>)
    ensures
        name@ == port_name(u_device_id),
        name@.len() <= 24,
{
    let mut name: Vec<u16> = Vec::new();
    name.push(88);
    name.push(88);
    name.push(83);
    name.push(121);
    name.push(110);
    name.push(116);
    name.push(104);
    name.push(32);
    name.push(80);
    name.push(111);
    name.push(114);
    name.push(116);
    name.push(32);
    assert(name@ =~= port_name_prefix());
    push_decimal_units(&mut name, u_device_id as u64 + 1);
    name.push(0);
    proof {
        lemma_port_name_fits(u_device_id);
    }
    name
}

/// Describes a port to the host: its fixed capabilities and its name.
pub fn describe_port(caps: &mut MIDIOUTCAPSW, u_device_id: u32)
    ensures
        described(*old(caps), *final(caps), u_device_id),
{
    caps.w_mid = 0xFFFF;
    caps.w_pid = 0xFFFF;
    caps.v_driver_version = 0x0100;
    caps.w_technology = MOD_MIDIPORT;
    caps.w_voices = 256;
    caps.w_notes = 256;
    caps.w_channel_mask = 0xFFFF;
    caps.dw_support = 0;
    let name = port_name_units(u_device_id);
    let mut i: usize = 0;
    while i < name.len()
        invariant
            0 <= i <= name.len() <= 24,
            name@ == port_name(u_device_id),
            caps.w_mid == 0xFFFF,
            caps.w_pid == 0xFFFF,
            caps.v_driver_version == 0x0100,
            caps.w_technology == MOD_MIDIPORT,
            caps.w_voices == 256,
            caps.w_notes == 256,
            caps.w_channel_mask == 0xFFFF,
            caps.dw_support == 0,
            forall|j: int| 0 <= j < i ==> caps.sz_pname@[j] == name@[j],
            forall|j: int| i <= j < 32 ==> caps.sz_pname@[j] == old(caps).sz_pname@[j],
        decreases name.len() - i,
    {
        caps.sz_pname[i] = name[i];
        i = i + 1;
    }
}

} // verus!
