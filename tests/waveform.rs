use opentrig::waveform::{encode, encode_event, next_trigger_id, Broadcaster, FRAME_LEN};

fn id_from_slots(frame: &[u32]) -> u16 {
    let mut id: u16 = 0;
    for k in 0..16 {
        let bit = if frame[5 + k] == 1 << 26 { 1 } else { 0 };
        id = (id << 1) | bit;
    }
    id
}

#[test]
fn frame_layout_for_any_identifier() {
    for &(id, pattern) in &[(0u16, 0u32), (0xFFFF, 0x00FF_FFFF), (0x1234, 0x0055_AA55), (0x8001, 0x0080_0000)] {
        let frame = encode(id, pattern);
        assert_eq!(frame.len(), FRAME_LEN);
        assert_eq!(frame[4], 0x0800_0000);
        for k in 0..16 {
            let expected = if (id >> (15 - k)) & 1 == 1 { 0x0400_0000 } else { 0 };
            assert_eq!(frame[5 + k], expected);
        }
        for i in (1..4).chain(21..FRAME_LEN) {
            assert_eq!(frame[i], 0);
        }
        assert_eq!(id_from_slots(&frame), id);
    }
}

#[test]
fn scenario_identifier_a111_channel_zero() {
    let frame = encode(0xA111, 0x0000_0001);
    assert_eq!(frame[0], 0x0000_0001);
    assert_eq!(frame[4], 0x0800_0000);
    assert_eq!(id_from_slots(&frame), 0xA111);
    assert_eq!(frame[5], 0x0400_0000);
    assert_eq!(frame[6], 0);
}

#[test]
fn channel_23_moves_to_pin_25() {
    assert_eq!(encode(0, 1 << 23)[0], 0x0200_0000);
    assert_eq!(encode(0, 0x00FF_FFFF)[0], 0x027F_FFFF);
    assert_eq!(encode(0, 0x007F_FFFF)[0], 0x007F_FFFF);
}

#[test]
fn bits_above_the_channels_are_dropped() {
    assert_eq!(encode(0, 0xFF00_0000)[0], 0);
    assert_eq!(encode(0, 0x0100_0003)[0], 3);
}

#[test]
fn encode_event_clears_an_old_frame() {
    let mut buffer = [0xDEAD_BEEFu32; 32];
    encode_event(&mut buffer, 0x0001, 0x2);
    assert_eq!(buffer[0], 0x2);
    assert_eq!(buffer[1], 0);
    assert_eq!(buffer[3], 0);
    assert_eq!(buffer[4], 0x0800_0000);
    assert_eq!(buffer[19], 0);
    assert_eq!(buffer[20], 0x0400_0000);
    for i in 21..32 {
        assert_eq!(buffer[i], 0);
    }
}

#[test]
fn identifier_wraps_after_65535() {
    assert_eq!(next_trigger_id(65535), 0);
    assert_eq!(next_trigger_id(0), 1);
    assert_eq!(next_trigger_id(65534), 65535);
}

#[test]
fn broadcaster_tick_encodes_then_advances() {
    let mut b = Broadcaster::new(65535);
    let mut buffer = [7u32; FRAME_LEN];
    b.tick(&mut buffer, 0x4);
    assert_eq!(buffer, encode(65535, 0x4));
    assert_eq!(b.trigger_id(), 0);
    b.tick(&mut buffer, 0x8);
    assert_eq!(buffer, encode(0, 0x8));
    assert_eq!(b.trigger_id(), 1);
}
