use ca_exchange::{Handshake, KeystreamState, PnetConfig, PnetOutput, PreSharedKey, NONCE_LEN};

/// Complete a handshake with fixed synthetic nonces: the local nonce is
/// `local` repeated, the remote nonce received is `remote` repeated.
fn establish(key: [u8; 32], local: u8, remote: u8) -> PnetOutput {
    let config = PnetConfig::new(PreSharedKey::new(key));
    let mut hs = Handshake::new(config, vec![local; NONCE_LEN]);
    let pending = hs.to_send();
    assert_eq!(pending.len(), NONCE_LEN);
    assert_eq!(pending, vec![local; NONCE_LEN]);
    hs.on_sent(pending.len());
    assert_eq!(hs.recv_needed(), NONCE_LEN);
    hs.on_received(&vec![remote; NONCE_LEN]);
    assert!(hs.is_complete());
    hs.finish()
}

/// A connected pair: what `a` sends under its local nonce, `b` receives
/// under the same nonce, and vice versa.
fn establish_pair(key: [u8; 32]) -> (PnetOutput, PnetOutput) {
    let a = establish(key, 1, 2);
    let b = establish(key, 2, 1);
    (a, b)
}

/// Send `msg` from `a` to `b` in one full write and one full read.
fn send_all(a: &mut PnetOutput, b: &mut PnetOutput, msg: &[u8]) -> Vec<u8> {
    let plain = msg.to_vec();
    let cipher = a.encrypt_for_write(&plain, plain.len());
    assert_eq!(cipher.len(), plain.len());
    a.commit_write(cipher.len());
    let mut buf = cipher;
    b.decrypt_read(&mut buf);
    buf
}

#[test]
fn round_trip_hello() {
    let (mut a, mut b) = establish_pair([0u8; 32]);
    let got = send_all(&mut a, &mut b, b"hello");
    assert_eq!(got, b"hello".to_vec());
}

#[test]
fn round_trip_small_lengths() {
    for len in 0..=64usize {
        let (mut a, mut b) = establish_pair([7u8; 32]);
        let msg: Vec<u8> = (0..len).map(|i| (i * 31 + 5) as u8).collect();
        let got = send_all(&mut a, &mut b, &msg);
        assert_eq!(got, msg);
    }
}

#[test]
fn round_trip_both_directions() {
    let (mut a, mut b) = establish_pair([9u8; 32]);
    let got_ab = send_all(&mut a, &mut b, b"from a to b");
    let got_ba = send_all(&mut b, &mut a, b"and back again");
    assert_eq!(got_ab, b"from a to b".to_vec());
    assert_eq!(got_ba, b"and back again".to_vec());
}

#[test]
fn variable_msg_length() {
    // Messages of every length in a small range survive the round trip.
    for len in 10..=31usize {
        let (mut a, mut b) = establish_pair([3u8; 32]);
        let msg: Vec<u8> = (0..len).map(|i| (i * 7 + 1) as u8).collect();
        let got = send_all(&mut a, &mut b, &msg);
        assert_eq!(got, msg);
    }
}

#[test]
fn round_trip_large_payload_partial_io() {
    // More than 64 KiB, crossing the wire in many unequal pieces: the
    // underlying stream accepts and returns fewer bytes than requested.
    let (mut a, mut b) = establish_pair([42u8; 32]);
    let msg: Vec<u8> = (0..70_000usize).map(|i| (i % 251) as u8).collect();

    let mut wire: Vec<u8> = Vec::new();
    let mut offset = 0usize;
    let mut step = 1usize;
    while offset < msg.len() {
        let remaining = msg[offset..].to_vec();
        // Encrypt everything still owed; the underlying stream then accepts
        // only `accepted` bytes, so only that much keystream is committed and
        // the rest is re-encrypted on the next pass.
        let cipher = a.encrypt_for_write(&remaining, remaining.len());
        let accepted = step.min(remaining.len());
        wire.extend_from_slice(&cipher[..accepted]);
        a.commit_write(accepted);
        offset += accepted;
        step = step * 3 % 4096 + 1;
    }
    assert_eq!(wire.len(), msg.len());

    let mut plain: Vec<u8> = Vec::new();
    let mut offset = 0usize;
    let mut step = 5usize;
    while offset < wire.len() {
        let take = step.min(wire.len() - offset);
        let mut chunk = wire[offset..offset + take].to_vec();
        b.decrypt_read(&mut chunk);
        plain.extend_from_slice(&chunk);
        offset += take;
        step = step * 7 % 2048 + 1;
    }
    assert_eq!(plain, msg);
}

#[test]
fn keystream_determinism_same_pair() {
    // Two instances built from the same (key, nonce) produce the same bytes.
    let key = PreSharedKey::new([5u8; 32]);
    let nonce = vec![11u8; NONCE_LEN];
    let mut first = KeystreamState::new(&key, &nonce);
    let mut second = KeystreamState::new(&key, &nonce);
    let msg: Vec<u8> = (0..200u16).map(|i| (i % 256) as u8).collect();
    let mut buf1 = msg.clone();
    let mut buf2 = msg.clone();
    first.apply(&mut buf1);
    second.apply(&mut buf2);
    assert_eq!(buf1, buf2);
    assert_eq!(first.position(), 200);
    assert_eq!(second.position(), 200);
}

#[test]
fn keystream_differs_across_nonces() {
    // Same key, different nonces: identical plaintext encrypts differently.
    let key = PreSharedKey::new([5u8; 32]);
    let mut with_first_nonce = KeystreamState::new(&key, &vec![1u8; NONCE_LEN]);
    let mut with_second_nonce = KeystreamState::new(&key, &vec![3u8; NONCE_LEN]);
    let msg = vec![0u8; 64];
    let mut buf1 = msg.clone();
    let mut buf2 = msg.clone();
    with_first_nonce.apply(&mut buf1);
    with_second_nonce.apply(&mut buf2);
    assert_ne!(buf1, buf2);
    // Encrypting the zero message exposes the raw keystream; it must not be
    // the identity keystream either.
    assert_ne!(buf1, msg);
    assert_ne!(buf2, msg);
}

#[test]
fn directional_independence() {
    // Desynchronizing the write-direction cursor leaves the read direction
    // decrypting correctly, and vice versa.
    let (mut a, mut b) = establish_pair([13u8; 32]);

    // Corrupt a's send cursor; a's reads must still line up with b's sends.
    a.commit_write(1000);
    assert_eq!(a.send_position(), 1000);
    assert_eq!(a.recv_position(), 0);
    let got = send_all(&mut b, &mut a, b"read side unharmed");
    assert_eq!(got, b"read side unharmed".to_vec());

    // Corrupt b's receive cursor by reading garbage; b's writes must still
    // line up with a's reads.
    let mut garbage = vec![0xA5u8; 77];
    b.decrypt_read(&mut garbage);
    assert_eq!(b.recv_position(), 77);
    let got = send_all(&mut b, &mut a, b"write side unharmed");
    assert_eq!(got, b"write side unharmed".to_vec());
}

#[test]
fn mismatched_keys_garble_traffic() {
    // Both handshakes complete without error even though the keys differ;
    // the mismatch shows up only as unreadable plaintext.
    let mut a = establish([0u8; 32], 1, 2);
    let mut b = establish([255u8; 32], 2, 1);
    let msg = b"secret payload".to_vec();
    let got = send_all(&mut a, &mut b, &msg);
    assert_eq!(got.len(), msg.len());
    assert_ne!(got, msg);
}

#[test]
fn encrypt_prefix_only() {
    // Only the requested prefix is encrypted and no keystream is consumed
    // until the write is committed.
    let (a, _b) = establish_pair([21u8; 32]);
    let msg = b"0123456789".to_vec();
    let head = a.encrypt_for_write(&msg, 4);
    assert_eq!(head.len(), 4);
    assert_eq!(a.send_position(), 0);
    let whole = a.encrypt_for_write(&msg, msg.len());
    assert_eq!(whole[..4], head[..]);
}
