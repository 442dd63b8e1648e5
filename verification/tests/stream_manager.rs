use aicc_core::stream_manager::{find_unused_token, StreamManager};

#[test]
fn ids_count_up_from_zero() {
    let mut m = StreamManager::new();
    assert_eq!((0, true), m.register(b"steering".to_vec()));
    assert_eq!((1, true), m.register(b"throttle".to_vec()));
    assert_eq!(2, m.stream_count());
}

#[test]
fn a_known_name_keeps_its_id() {
    let mut m = StreamManager::new();
    assert_eq!((0, true), m.register(b"steering".to_vec()));
    assert_eq!((1, true), m.register(b"throttle".to_vec()));
    assert_eq!((0, false), m.register(b"steering".to_vec()));
    assert_eq!((1, false), m.register(b"throttle".to_vec()));
    assert_eq!(2, m.stream_count());
}

#[test]
fn only_granted_ids_have_streams() {
    let mut m = StreamManager::new();
    assert!(!m.has_stream(0));
    m.register(b"steering".to_vec());
    assert!(m.has_stream(0));
    assert!(!m.has_stream(1));
    assert!(!m.has_stream(-1));
}

#[test]
fn free_slots_are_granted_in_scan_order() {
    // Nobody connected: the scan starts at slot 0.
    assert_eq!(Some(0), find_unused_token(&vec![false, false, false, false]));

    // Two clients in slots 0 and 1: the scan starts at the client
    // count and finds slot 2.
    assert_eq!(Some(2), find_unused_token(&vec![true, true, false, false]));

    // The scan wraps past occupied slots.
    assert_eq!(Some(1), find_unused_token(&vec![true, false, true, true]));

    // A full house grants nothing.
    assert_eq!(None, find_unused_token(&vec![true, true, true, true]));
}
