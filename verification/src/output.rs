//! The result of a handshake: the cipher core of the encrypting stream
//! wrapper. It holds the two independent per-direction keystream cursors
//! (send and receive) and applies them to the bytes that actually cross the
//! underlying stream; the embedding layer owns the stream itself and forwards
//! read, write, flush and close calls around these operations unchanged.

use vstd::prelude::*;
use crate::keystream::{KeystreamState, xor_keystream};

verus! {

/// The result of a handshake. The embedding layer pairs this with the
/// underlying stream: on every read it hands the bytes received here for
/// decryption, and on every write it encrypts through here before forwarding.
pub struct PnetOutput {
    send: KeystreamState,
    recv: KeystreamState,
}

impl PnetOutput {
    /// The keystream cursor of the outbound (encrypting) direction.
    pub closed spec fn send_state(self) -> KeystreamState {
        self.send
    }

    /// The keystream cursor of the inbound (decrypting) direction.
    pub closed spec fn recv_state(self) -> KeystreamState {
        self.recv
    }

    /// Both directions' cursors match their generator states.
    pub open spec fn wf(self) -> bool {
        self.send_state().wf() && self.recv_state().wf()
    }

    /// Pair a send-direction keystream (keyed by the local nonce) with a
    /// receive-direction keystream (keyed by the remote nonce).
    pub fn new(send: KeystreamState, recv: KeystreamState) -> (r: Self)
        ensures
            r.send_state() == send,
            r.recv_state() == recv,
    {
        Self { send, recv }
    }

    /// The send cursor position: how many bytes have left on the wire.
    pub fn send_position(&self) -> (r: u64)
        ensures
            r as nat == self.send_state().cursor(),
    {
        self.send.position()
    }

    /// The receive cursor position: how many bytes have arrived off the wire.
    pub fn recv_position(&self) -> (r: u64)
        ensures
            r as nat == self.recv_state().cursor(),
    {
        self.recv.position()
    }

    /// Encrypt the first `k` bytes of the caller's plaintext into a fresh
    /// buffer for forwarding to the underlying stream. The caller's buffer is
    /// untouched and no keystream is consumed: only `commit_write`, called
    /// with the byte count the underlying stream actually accepted, advances
    /// the send cursor, so bytes the stream rejects are re-encrypted from the
    /// same keystream position on the next attempt.
    pub fn encrypt_for_write(&self, buf: &Vec<u8>, k: usize) -> (r: Vec<u8>)
        requires
            self.wf(),
            k <= buf@.len(),
            self.send_state().cursor() + k <= u64::MAX,
        ensures
            r@ == xor_keystream(
                self.send_state().key(),
                self.send_state().nonce(),
                self.send_state().cursor(),
                buf@.take(k as int),
            ),
            r@.len() == k,
    {
        self.send.apply_copy(buf, k)
    }

    /// Commit `n` bytes of the send direction's keystream after the
    /// underlying stream reported accepting `n` bytes of ciphertext. The
    /// receive direction is untouched: the two directions are fully
    /// independent.
    pub fn commit_write(&mut self, n: usize)
        requires
            old(self).wf(),
            old(self).send_state().cursor() + n <= u64::MAX,
        ensures
            final(self).wf(),
            final(self).send_state().key() == old(self).send_state().key(),
            final(self).send_state().nonce() == old(self).send_state().nonce(),
            final(self).send_state().cursor() == old(self).send_state().cursor() + n,
            final(self).recv_state() == old(self).recv_state(),
    {
        self.send.advance(n)
    }

    /// Decrypt, in place, `buf` as the bytes the underlying stream just
    /// reported reading, advancing the receive cursor by exactly that count.
    /// The send direction is untouched: the two directions are fully
    /// independent.
    pub fn decrypt_read(&mut self, buf: &mut Vec<u8>)
        requires
            old(self).wf(),
            old(self).recv_state().cursor() + old(buf)@.len() <= u64::MAX,
        ensures
            final(self).wf(),
            final(self).recv_state().key() == old(self).recv_state().key(),
            final(self).recv_state().nonce() == old(self).recv_state().nonce(),
            final(self).recv_state().cursor() == old(self).recv_state().cursor()
                + old(buf)@.len(),
            final(self).send_state() == old(self).send_state(),
            final(buf)@ == xor_keystream(
                old(self).recv_state().key(),
                old(self).recv_state().nonce(),
                old(self).recv_state().cursor(),
                old(buf)@,
            ),
    {
        self.recv.apply(buf)
    }
}

/// Directional independence: the two keystream cursors never interact. Two
/// wrappers whose receive directions agree decrypt any bytes identically,
/// whatever their send directions have done (a desynchronized send cursor
/// cannot corrupt reads); and symmetrically for the send direction.
pub proof fn lemma_directional_independence(a: PnetOutput, b: PnetOutput, data: Seq<u8>)
    ensures
        a.recv_state() == b.recv_state() ==> xor_keystream(
            a.recv_state().key(),
            a.recv_state().nonce(),
            a.recv_state().cursor(),
            data,
        ) == xor_keystream(
            b.recv_state().key(),
            b.recv_state().nonce(),
            b.recv_state().cursor(),
            data,
        ),
        a.send_state() == b.send_state() ==> xor_keystream(
            a.send_state().key(),
            a.send_state().nonce(),
            a.send_state().cursor(),
            data,
        ) == xor_keystream(
            b.send_state().key(),
            b.send_state().nonce(),
            b.send_state().cursor(),
            data,
        ),
{
}

} // verus!
