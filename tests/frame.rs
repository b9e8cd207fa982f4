use opentrig::frame::{decode, DAQSample, FrameError};

fn wire(s: &DAQSample) -> [u8; 16] {
    let mut b = [0u8; 16];
    b[0] = 0x7E;
    b[1..3].copy_from_slice(&s.trigger_id.to_be_bytes());
    b[3..11].copy_from_slice(&s.trigger_clk.to_be_bytes());
    let word = s.trigger_data | if s.veto_in { 1 << 31 } else { 0 } | if s.internal_trigger { 1 << 30 } else { 0 };
    b[11..15].copy_from_slice(&word.to_be_bytes());
    b[15] = 0x7D;
    b
}

#[test]
fn scenario_decodes_id_42_clock_16() {
    let bytes = [0x7E, 0x00, 0x2A, 0, 0, 0, 0, 0, 0, 0, 0x10, 0x00, 0x00, 0x00, 0x00, 0x7D];
    assert_eq!(
        decode(&bytes),
        Ok(DAQSample { trigger_id: 42, trigger_clk: 16, trigger_data: 0, veto_in: false, internal_trigger: false })
    );
}

#[test]
fn round_trip_of_field_values() {
    let samples = [
        DAQSample { trigger_id: 0xA111, trigger_clk: 0x0123_4567_89AB_CDEF, trigger_data: 0x00FF_FFFF, veto_in: true, internal_trigger: false },
        DAQSample { trigger_id: 65535, trigger_clk: u64::MAX, trigger_data: 0x0080_0001, veto_in: false, internal_trigger: true },
        DAQSample { trigger_id: 0, trigger_clk: 0, trigger_data: 0, veto_in: true, internal_trigger: true },
    ];
    for s in samples.iter() {
        assert_eq!(decode(&wire(s)), Ok(*s));
    }
}

#[test]
fn status_word_fields() {
    let mut bytes = [0u8; 16];
    bytes[0] = 0x7E;
    bytes[15] = 0x7D;
    bytes[11..15].copy_from_slice(&[0xBF, 0x12, 0x34, 0x56]);
    let s = decode(&bytes).unwrap();
    assert_eq!(s.trigger_data, 0x0012_3456);
    assert!(s.veto_in);
    assert!(!s.internal_trigger);
    bytes[11] = 0x7F;
    let s = decode(&bytes).unwrap();
    assert!(!s.veto_in);
    assert!(s.internal_trigger);
}

#[test]
fn wrong_start_marker_is_a_framing_error() {
    let mut bytes = [0xFFu8; 16];
    bytes[15] = 0x7D;
    assert_eq!(decode(&bytes), Err(FrameError::Framing));
    bytes[0] = 0x7D;
    assert_eq!(decode(&bytes), Err(FrameError::Framing));
}

#[test]
fn wrong_end_marker_is_a_framing_error() {
    let mut bytes = [0u8; 16];
    bytes[0] = 0x7E;
    assert_eq!(decode(&bytes), Err(FrameError::Framing));
    bytes[15] = 0x7E;
    assert_eq!(decode(&bytes), Err(FrameError::Framing));
    bytes[15] = 0x7D;
    assert!(decode(&bytes).is_ok());
}
