use aicc_core::messages::drive_core::{decode, encode, frame_len, MessageType};
use aicc_core::messages::DecodeError;

#[test]
fn serialize_set_steering() {
    let expected = -0.987f32;
    let vec = encode(&MessageType::SetSteering(expected.to_bits()));
    assert_eq!(vec.len(), 8);

    let msg = decode(&vec[..]).unwrap();
    match msg {
        MessageType::SetSteering(actual) => assert_eq!(f32::from_bits(actual), expected),
        _ => panic!("Deserialized the wrong value"),
    }
}

#[test]
fn serialize_set_throttle() {
    let value = 132.321f32;
    let vec = encode(&MessageType::SetThrottle(value.to_bits()));
    assert_eq!(vec.len(), 8);

    let msg = decode(&vec[..]).unwrap();
    match msg {
        MessageType::SetThrottle(actual) => assert_eq!(f32::from_bits(actual), value),
        _ => panic!("Deserialized the wrong value"),
    }
}

#[test]
fn deserialize_set_steering() {
    let raw = [0, 0, 0, 0, 0xd5, 0xd0, 0x4d, 0x44];
    let msg = decode(&raw).unwrap();
    match msg {
        MessageType::SetSteering(actual) => assert_eq!(f32::from_bits(actual), 823.263f32),
        _ => panic!("Deserialized the wrong value"),
    }
}

#[test]
fn deserialize_set_throttle() {
    let raw = [1, 0, 0, 0, 0x87, 0x16, 0x39, 0xbf];
    let msg = decode(&raw).unwrap();
    match msg {
        MessageType::SetThrottle(actual) => assert_eq!(f32::from_bits(actual), -0.723f32),
        _ => panic!("Deserialized the wrong value"),
    }
}

#[test]
fn deserialize_additional_bytes() {
    let raw = [1, 0, 0, 0, 0x42, 0x60, 0x05, 0x3f, 1, 0, 0, 0];
    let msg = decode(&raw).unwrap();
    match msg {
        MessageType::SetThrottle(actual) => assert_eq!(f32::from_bits(actual), 0.521f32),
        _ => panic!("Deserialized the wrong value"),
    }
}

#[test]
fn deserialize_bye() {
    let raw = [2, 0, 0, 0];
    let msg = decode(&raw).unwrap();
    match msg {
        MessageType::Bye => {}
        _ => panic!("Deserialized the wrong value"),
    }
}

#[test]
fn deserialize_truncated_frame() {
    assert_eq!(decode(&[0, 0, 0][..]), Err(DecodeError::Truncated));
    assert_eq!(decode(&[0, 0, 0, 0, 0x12][..]), Err(DecodeError::Truncated));
    assert_eq!(decode(&[1, 0, 0, 0][..]), Err(DecodeError::Truncated));
}

#[test]
fn deserialize_unknown_tag() {
    assert_eq!(decode(&[3, 0, 0, 0][..]), Err(DecodeError::UnknownTag));
    assert_eq!(decode(&[0xff, 0xff, 0xff, 0xff][..]), Err(DecodeError::UnknownTag));
}

#[test]
fn frame_len_matches_variant() {
    assert_eq!(frame_len(&[0, 0, 0, 0][..]), Ok(8));
    assert_eq!(frame_len(&[1, 0, 0, 0][..]), Ok(8));
    assert_eq!(frame_len(&[2, 0, 0, 0][..]), Ok(4));
    assert_eq!(frame_len(&[7, 0, 0, 0][..]), Err(DecodeError::UnknownTag));
}
