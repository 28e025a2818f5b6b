use xxsynth::mapper::{
    classify, handle_datagram, map_packet, target_channel, ChannelEvent, NoteEvent,
    CHANNELS_PER_PORT,
};
use xxsynth::packet::Packet;

fn packet(port_index: u8, status_byte: u8, data1: u8, data2: u8) -> Packet {
    Packet { port_index, status_byte, data1, data2 }
}

#[test]
fn target_channel_is_sixteen_per_port_plus_low_nibble() {
    for port in 0..16u8 {
        for status in 0x80..0xA0u8 {
            let expected = port as u32 * 16 + (status & 0x0F) as u32;
            assert_eq!(target_channel(port, status), expected);
            let mapped = map_packet(packet(port, status, 60, 100), 256).unwrap();
            assert_eq!(mapped.channel, expected);
        }
    }
}

#[test]
fn target_channel_of_the_last_port() {
    assert_eq!(target_channel(255, 0x9F), 4095);
    assert_eq!(target_channel(0, 0x80), 0);
    assert_eq!(target_channel(1, 0x80), 16);
    assert_eq!(CHANNELS_PER_PORT, 16);
}

#[test]
fn out_of_range_channels_are_dropped() {
    for total in [0u32, 1, 16, 64, 255] {
        for port in 0..=255u8 {
            for status in [0x80u8, 0x8F, 0x90, 0x95, 0x9F] {
                let out = map_packet(packet(port, status, 60, 100), total);
                let target = port as u32 * 16 + (status & 0x0F) as u32;
                if target >= total {
                    assert_eq!(out, None);
                } else {
                    assert_eq!(out.unwrap().channel, target);
                }
            }
        }
    }
}

#[test]
fn note_off_does_not_depend_on_the_status_code() {
    for data2 in 0..=255u8 {
        assert_eq!(classify(0x80, 60, data2), Some(NoteEvent::NoteOff { key: 60 }));
        assert_eq!(classify(0x8F, 61, data2), Some(NoteEvent::NoteOff { key: 61 }));
    }
    assert_eq!(classify(0x90, 60, 0), Some(NoteEvent::NoteOff { key: 60 }));
    assert_eq!(classify(0x93, 200, 0), Some(NoteEvent::NoteOff { key: 200 }));
}

#[test]
fn note_on_keeps_key_and_velocity() {
    for data2 in 1..=255u8 {
        assert_eq!(
            classify(0x90, 60, data2),
            Some(NoteEvent::NoteOn { key: 60, velocity: data2 })
        );
    }
    assert_eq!(classify(0x9C, 0, 1), Some(NoteEvent::NoteOn { key: 0, velocity: 1 }));
}

#[test]
fn other_message_kinds_are_not_modelled() {
    for status in [0xA0u8, 0xB0, 0xC5, 0xD0, 0xE0, 0xEF] {
        assert_eq!(classify(status, 1, 2), None);
        assert_eq!(map_packet(packet(0, status, 1, 2), 256), None);
    }
}

#[test]
fn status_bytes_outside_the_voice_range_are_dropped() {
    for status in [0x00u8, 0x10, 0x7F, 0xF0, 0xF8, 0xFF] {
        assert_eq!(map_packet(packet(0, status, 60, 100), 256), None);
    }
    assert!(map_packet(packet(0, 0x80, 60, 100), 256).is_some());
}

#[test]
fn end_to_end_with_sixty_four_channels() {
    assert_eq!(
        handle_datagram(&[0, 0x90, 60, 100], 64),
        Some(ChannelEvent { channel: 0, event: NoteEvent::NoteOn { key: 60, velocity: 100 } })
    );
    assert_eq!(handle_datagram(&[4, 0x90, 60, 100], 64), None);
    assert_eq!(
        handle_datagram(&[3, 0x9F, 60, 100], 64),
        Some(ChannelEvent { channel: 63, event: NoteEvent::NoteOn { key: 60, velocity: 100 } })
    );
}

#[test]
fn malformed_datagrams_are_dropped() {
    assert_eq!(handle_datagram(&[], 64), None);
    assert_eq!(handle_datagram(&[0, 0x90, 60], 64), None);
    assert_eq!(handle_datagram(&[0, 0x90, 60, 100, 1], 64), None);
}

#[test]
fn a_note_and_its_release_go_the_same_way() {
    for port in [0u8, 3, 4, 200] {
        for channel in 0..16u8 {
            let on = handle_datagram(&[port, 0x90 + channel, 60, 1], 64);
            let off = handle_datagram(&[port, 0x80 + channel, 60, 0], 64);
            assert_eq!(on.is_some(), off.is_some());
            if let (Some(a), Some(b)) = (on, off) {
                assert_eq!(a.channel, b.channel);
                assert_eq!(b.event, NoteEvent::NoteOff { key: 60 });
            }
        }
    }
}
