use aicc_core::messages::logger::{decode, encode, MessageType};
use aicc_core::messages::DecodeError;

#[test]
fn serialize_register() {
    let out = MessageType::Register(b"test_foo".to_vec(), b"int".to_vec());
    let vec = encode(&out);

    let msg = decode(&vec[..]).unwrap();
    match msg {
        MessageType::Register(name, typename) => {
            assert_eq!(b"test_foo".to_vec(), name);
            assert_eq!(b"int".to_vec(), typename);
        }
        _ => panic!("Deserialized the wrong value"),
    }
}

#[test]
fn serialize_acknowledge() {
    let out = MessageType::Acknowledge(42);
    let vec = encode(&out);

    let msg = decode(&vec[..]).unwrap();
    match msg {
        MessageType::Acknowledge(log_id) => {
            assert_eq!(42, log_id);
        }
        _ => panic!("Deserialized the wrong value"),
    }
}

#[test]
fn serialize_log_message() {
    let out = MessageType::Log(42, 12.34f32.to_bits());
    let vec = encode(&out);

    let msg = decode(&vec[..]).unwrap();
    match msg {
        MessageType::Log(log_id, val) => {
            assert_eq!(42, log_id);
            assert_eq!(12.34f32, f32::from_bits(val));
        }
        _ => panic!("Deserialized the wrong value"),
    }
}

#[test]
fn register_wire_layout() {
    // Tag word, 2-byte length prefixes, raw bytes.
    let vec = encode(&MessageType::Register(b"ab".to_vec(), b"int".to_vec()));
    assert_eq!(
        vec,
        vec![0, 0, 0, 0, 2, 0, b'a', b'b', 3, 0, b'i', b'n', b't']
    );
}

#[test]
fn log_negative_id_round_trips() {
    let vec = encode(&MessageType::Acknowledge(-7));
    match decode(&vec[..]).unwrap() {
        MessageType::Acknowledge(id) => assert_eq!(-7, id),
        _ => panic!("Deserialized the wrong value"),
    }
}

#[test]
fn register_truncated_name_is_refused() {
    // Claims a 10-byte name but carries only 3 bytes.
    let raw = [0, 0, 0, 0, 10, 0, b'a', b'b', b'c'];
    assert!(matches!(decode(&raw[..]), Err(DecodeError::Truncated)));
}
