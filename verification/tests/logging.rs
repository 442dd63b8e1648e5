use aicc_core::logging::{registration_request, registration_reply_id};
use aicc_core::messages::logger::MessageType;

#[test]
fn registration_request_is_a_register_message() {
    let bytes = registration_request(b"drive-core_steering", b"real");
    match aicc_core::messages::logger::decode(&bytes[..]).unwrap() {
        MessageType::Register(name, typename) => {
            assert_eq!(b"drive-core_steering".to_vec(), name);
            assert_eq!(b"real".to_vec(), typename);
        }
        _ => panic!("Deserialized the wrong value"),
    }
}

#[test]
fn acknowledge_reply_grants_the_id() {
    assert_eq!(Ok(42), registration_reply_id(&MessageType::Acknowledge(42)));
}

#[test]
fn other_replies_are_refused() {
    assert!(registration_reply_id(&MessageType::Log(1, 0)).is_err());
    assert!(
        registration_reply_id(&MessageType::Register(b"x".to_vec(), b"int".to_vec())).is_err()
    );
}
