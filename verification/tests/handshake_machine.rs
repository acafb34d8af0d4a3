use ca_exchange::{
    Handshake, HandshakeEvent, HandshakeStep, PnetConfig, PnetError, PreSharedKey, NONCE_LEN,
};

fn fresh_handshake() -> Handshake {
    let config = PnetConfig::new(PreSharedKey::new([0u8; 32]));
    Handshake::new(config, vec![1u8; NONCE_LEN])
}

#[test]
fn handshake_progresses_through_partial_transfers() {
    let hs = fresh_handshake();
    let step = hs.step(HandshakeEvent::Sent(10));
    let hs = match step {
        HandshakeStep::Pending(h) => h,
        _ => panic!("partial send must leave the handshake pending"),
    };
    assert_eq!(hs.to_send().len(), NONCE_LEN - 10);
    let step = hs.step(HandshakeEvent::Sent(22));
    let hs = match step {
        HandshakeStep::Pending(h) => h,
        _ => panic!("nothing received yet, so the handshake must stay pending"),
    };
    assert_eq!(hs.to_send().len(), 0);
    assert_eq!(hs.recv_needed(), NONCE_LEN);
    let step = hs.step(HandshakeEvent::Received(vec![2u8; 16]));
    let hs = match step {
        HandshakeStep::Pending(h) => h,
        _ => panic!("half a nonce is not a completed exchange"),
    };
    assert_eq!(hs.recv_needed(), 16);
    let step = hs.step(HandshakeEvent::Received(vec![2u8; 16]));
    match step {
        HandshakeStep::Established(out) => {
            assert_eq!(out.send_position(), 0);
            assert_eq!(out.recv_position(), 0);
        }
        _ => panic!("a fully exchanged pair of nonces must establish the channel"),
    }
}

#[test]
fn handshake_failure_propagates() {
    // An I/O error during the nonce exchange surfaces as a handshake-phase
    // error; the result carries no keystream state.
    let hs = fresh_handshake();
    let step = hs.step(HandshakeEvent::Failed(104));
    match step {
        HandshakeStep::Error(e) => assert_eq!(e, PnetError::HandshakeError(104)),
        _ => panic!("an I/O error during the exchange must fail the handshake"),
    }
}

#[test]
fn handshake_failure_after_partial_exchange() {
    let hs = fresh_handshake();
    let hs = match hs.step(HandshakeEvent::Sent(32)) {
        HandshakeStep::Pending(h) => h,
        _ => panic!("the remote nonce is still owed"),
    };
    match hs.step(HandshakeEvent::Failed(0)) {
        HandshakeStep::Error(e) => assert_eq!(e, PnetError::HandshakeError(0)),
        _ => panic!("an I/O error mid-exchange must fail the handshake"),
    }
}

#[test]
fn to_send_is_remaining_suffix() {
    let mut hs = fresh_handshake();
    assert_eq!(hs.to_send(), vec![1u8; NONCE_LEN]);
    hs.on_sent(5);
    assert_eq!(hs.to_send(), vec![1u8; NONCE_LEN - 5]);
    assert!(!hs.is_complete());
}

#[test]
fn io_error_converts_to_post_handshake_variant() {
    let err = PnetError::from(32);
    assert_eq!(err, PnetError::IoError(32));
    assert_ne!(err, PnetError::HandshakeError(32));
}

#[test]
fn pre_shared_key_equality() {
    // Keys are plain 32-byte values compared only for equality.
    let k1 = PreSharedKey::new([9u8; 32]);
    let k2 = PreSharedKey::new([9u8; 32]);
    let k3 = PreSharedKey::new([10u8; 32]);
    assert_eq!(k1, k2);
    assert_ne!(k1, k3);
    let config = PnetConfig::new(k1);
    assert_eq!(config.key, k2);
}
