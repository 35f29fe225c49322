use raspboot::chainload::{ChainloadSession, ChainloadState};

#[test]
fn chainload_scenario_four_byte_payload() {
    let mut s = ChainloadSession::new();
    let greeting = s.start();
    assert_eq!(greeting, vec![b'R', b'B', b'I', b'N', b'6', b'4', b'\r', b'\n', 3, 3, 3]);
    let ack = s.receive_size(0x04, 0x00, 0x00, 0x00);
    assert_eq!(ack, vec![b'O', b'K']);
    for b in [0xDEu8, 0xAD, 0xBE, 0xEF] {
        assert!(!s.ready_to_launch());
        s.receive_byte(b);
    }
    assert!(s.ready_to_launch());
    assert_eq!(s.loaded, vec![0xDE, 0xAD, 0xBE, 0xEF]);
    assert_eq!(s.launch_address(), 0x80_000);
}

#[test]
fn size_is_little_endian() {
    let mut s = ChainloadSession::new();
    let _ = s.start();
    let _ = s.receive_size(0x01, 0x01, 0x00, 0x00);
    assert_eq!(s.expected, 0x101);
    assert_eq!(s.state, ChainloadState::ReceivingPayload { remaining: 0x101 });
    let mut s = ChainloadSession::new();
    let _ = s.start();
    let _ = s.receive_size(0x78, 0x56, 0x34, 0x12);
    assert_eq!(s.expected, 0x1234_5678);
}

#[test]
fn zero_size_launches_at_once() {
    let mut s = ChainloadSession::new();
    let _ = s.start();
    let ack = s.receive_size(0, 0, 0, 0);
    assert_eq!(ack, vec![b'O', b'K']);
    assert!(s.ready_to_launch());
    assert!(s.loaded.is_empty());
}

#[test]
fn payload_bytes_arrive_in_order() {
    let mut s = ChainloadSession::new();
    let _ = s.start();
    let _ = s.receive_size(6, 0, 0, 0);
    for b in 10u8..16 {
        s.receive_byte(b);
    }
    assert_eq!(s.loaded, vec![10, 11, 12, 13, 14, 15]);
    assert!(s.ready_to_launch());
}

#[test]
fn remaining_counts_down() {
    let mut s = ChainloadSession::new();
    let _ = s.start();
    let _ = s.receive_size(3, 0, 0, 0);
    s.receive_byte(1);
    assert_eq!(s.state, ChainloadState::ReceivingPayload { remaining: 2 });
    s.receive_byte(2);
    assert_eq!(s.state, ChainloadState::ReceivingPayload { remaining: 1 });
    s.receive_byte(3);
    assert_eq!(s.state, ChainloadState::Launch);
}
