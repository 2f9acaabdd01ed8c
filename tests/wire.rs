use pulse::signal::{PayloadKind, Quality, Signal};
use pulse::wire::{decode_frame, encode_frame, message_kind, signal_fits, signal_kind, Frame, FrameError, MessageKind};

#[test]
fn frame_layout() {
    assert_eq!(encode_frame(2, &vec![0xa, 0xb, 0xc]), vec![2, 0, 0, 0, 3, 0xa, 0xb, 0xc]);
    assert_eq!(encode_frame(1, &vec![]), vec![1, 0, 0, 0, 0]);
    let long = vec![7u8; 0x0102];
    let f = encode_frame(0, &long);
    assert_eq!(&f[..5], &[0, 0, 0, 1, 2]);
    assert_eq!(f.len(), 5 + 0x0102);
}

#[test]
fn frame_round_trip() {
    let payload = b"some payload".to_vec();
    let f = encode_frame(9, &payload);
    assert_eq!(decode_frame(&f), Ok(Frame { code: 9, payload }));
    assert_eq!(decode_frame(&encode_frame(0, &vec![])), Ok(Frame { code: 0, payload: vec![] }));
}

#[test]
fn short_input_is_truncated() {
    assert_eq!(decode_frame(&vec![]), Err(FrameError::Truncated));
    assert_eq!(decode_frame(&vec![1, 0, 0, 0]), Err(FrameError::Truncated));
}

#[test]
fn wrong_length_is_a_mismatch() {
    assert_eq!(decode_frame(&vec![1, 0, 0, 0, 2, 9]), Err(FrameError::LengthMismatch));
    assert_eq!(decode_frame(&vec![1, 0, 0, 0, 0, 9]), Err(FrameError::LengthMismatch));
    assert_eq!(decode_frame(&vec![1, 1, 0, 0, 1, 9]), Err(FrameError::LengthMismatch));
}

#[test]
fn type_codes_dispatch() {
    assert_eq!(message_kind(0), Some(MessageKind::Presence));
    assert_eq!(message_kind(1), Some(MessageKind::Quality));
    assert_eq!(message_kind(2), Some(MessageKind::Knowledge));
    assert_eq!(message_kind(3), None);
    assert_eq!(message_kind(255), None);
}

#[test]
fn signals_fit_their_kind() {
    let p = Signal::Presence([0; 18], 1, true);
    let q = Signal::Quality(Quality { bits: 0 });
    let n = Signal::Name("n".to_string());
    assert!(signal_fits(MessageKind::Presence, &p));
    assert!(!signal_fits(MessageKind::Knowledge, &p));
    assert!(signal_fits(MessageKind::Quality, &q));
    assert!(!signal_fits(MessageKind::Presence, &q));
    assert!(signal_fits(MessageKind::Knowledge, &n));
    assert!(!signal_fits(MessageKind::Quality, &n));
}

#[test]
fn codes_and_kinds_agree() {
    for k in [MessageKind::Presence, MessageKind::Quality, MessageKind::Knowledge] {
        assert_eq!(message_kind(pulse::wire::message_code(k)), Some(k));
    }
    assert_eq!(pulse::wire::message_code(MessageKind::Knowledge), 2);
}

#[test]
fn each_signal_has_its_kind() {
    assert_eq!(signal_kind(&Signal::Presence([0; 18], 0, false)), MessageKind::Presence);
    assert_eq!(signal_kind(&Signal::Quality(Quality { bits: 1 })), MessageKind::Quality);
    assert_eq!(signal_kind(&Signal::Source(vec![])), MessageKind::Knowledge);
    assert_eq!(signal_kind(&Signal::TypedPayload(PayloadKind::Text, vec![])), MessageKind::Knowledge);
}
