//! The handshake coordinator as a state machine over I/O events. The peers
//! exchange one nonce each: the local nonce is written in full and exactly
//! `NONCE_LEN` remote bytes are read before either keystream is constructed.
//! The embedding layer drives the underlying non-blocking stream and reports
//! back how many bytes each write accepted, which bytes each read returned,
//! or that an I/O error occurred; partial transfers simply leave the machine
//! pending, never a half-built channel.

use vstd::prelude::*;
use crate::{PnetConfig, PnetError, PreSharedKey};
use crate::keystream::{KeystreamState, NONCE_LEN};
use crate::output::PnetOutput;

verus! {

/// What the underlying stream reported for one handshake I/O operation.
pub enum HandshakeEvent {
    /// A write of pending local-nonce bytes was accepted, possibly partially:
    /// this many bytes were taken.
    Sent(usize),
    /// A read returned these bytes of the remote nonce, possibly fewer than
    /// remain to be read.
    Received(Vec<u8>),
    /// The underlying stream failed with an I/O error carrying this raw OS
    /// error code (0 when no code is available).
    Failed(i32),
}

/// The outcome of feeding one event to the handshake machine.
pub enum HandshakeStep {
    /// The nonce exchange is not finished yet: keep driving this machine.
    Pending(Handshake),
    /// Both nonces are fully exchanged: the encrypted channel is ready. No
    /// keystream exists before this point.
    Established(PnetOutput),
    /// The nonce exchange failed: the connection attempt is invalid and no
    /// keystream was constructed.
    Error(PnetError),
}

/// An in-progress nonce exchange: how much of the local nonce the underlying
/// stream has accepted, and the remote-nonce bytes received so far.
pub struct Handshake {
    /// The pre-shared key both derived keystreams will be keyed from.
    pub key: PreSharedKey,
    /// The locally generated nonce, sent to the peer; it keys the send
    /// direction. Randomness is injected by the caller, one fresh nonce per
    /// handshake attempt.
    pub local_nonce: Vec<u8>,
    /// How many bytes of the local nonce the stream has accepted so far.
    pub sent: usize,
    /// The remote-nonce bytes received so far; it keys the receive direction
    /// once complete.
    pub remote_nonce: Vec<u8>,
}

impl Handshake {
    /// The nonce lengths and counters are within the protocol bounds.
    pub open spec fn wf(self) -> bool {
        &&& self.local_nonce@.len() == NONCE_LEN
        &&& self.sent <= NONCE_LEN
        &&& self.remote_nonce@.len() <= NONCE_LEN
    }

    /// Both directions of the exchange have moved exactly `NONCE_LEN` bytes.
    pub open spec fn complete(self) -> bool {
        self.sent == NONCE_LEN && self.remote_nonce@.len() == NONCE_LEN
    }

    /// Begin a handshake: nothing sent, nothing received.
    pub fn new(config: PnetConfig, local_nonce: Vec<u8>) -> (r: Self)
        requires
            local_nonce@.len() == NONCE_LEN,
        ensures
            r.wf(),
            r.key == config.key,
            r.local_nonce@ == local_nonce@,
            r.sent == 0,
            r.remote_nonce@ == Seq::<u8>::empty(),
    {
        Self { key: config.key, local_nonce, sent: 0, remote_nonce: Vec::new() }
    }

    /// The local-nonce bytes not yet accepted by the underlying stream: what
    /// the next write attempt must offer.
    pub fn to_send(&self) -> (r: Vec<u8>)
        requires
            self.wf(),
        ensures
            r@ == self.local_nonce@.skip(self.sent as int),
    {
        let mut out: Vec<u8> = Vec::new();
        let mut i: usize = self.sent;
        while i < self.local_nonce.len()
            invariant
                self.sent <= i <= self.local_nonce@.len(),
                out@ == self.local_nonce@.subrange(self.sent as int, i as int),
            decreases self.local_nonce@.len() - i,
        {
            out.push(self.local_nonce[i]);
            assert(out@ =~= self.local_nonce@.subrange(self.sent as int, i + 1));
            i = i + 1;
        }
        assert(out@ =~= self.local_nonce@.skip(self.sent as int));
        out
    }

    /// How many remote-nonce bytes are still owed: what the next read attempt
    /// must ask for, and no more.
    pub fn recv_needed(&self) -> (r: usize)
        requires
            self.wf(),
        ensures
            r == NONCE_LEN - self.remote_nonce@.len(),
    {
        NONCE_LEN - self.remote_nonce.len()
    }

    /// Record that the underlying stream accepted `n` more local-nonce bytes.
    pub fn on_sent(&mut self, n: usize)
        requires
            old(self).wf(),
            n <= NONCE_LEN - old(self).sent,
        ensures
            final(self).wf(),
            final(self).sent == old(self).sent + n,
            final(self).key == old(self).key,
            final(self).local_nonce == old(self).local_nonce,
            final(self).remote_nonce == old(self).remote_nonce,
    {
        self.sent = self.sent + n;
    }

    /// Record remote-nonce bytes the underlying stream returned.
    pub fn on_received(&mut self, chunk: &Vec<u8>)
        requires
            old(self).wf(),
            old(self).remote_nonce@.len() + chunk@.len() <= NONCE_LEN,
        ensures
            final(self).wf(),
            final(self).remote_nonce@ == old(self).remote_nonce@ + chunk@,
            final(self).key == old(self).key,
            final(self).local_nonce == old(self).local_nonce,
            final(self).sent == old(self).sent,
    {
        let mut i: usize = 0;
        while i < chunk.len()
            invariant
                i <= chunk@.len(),
                old(self).remote_nonce@.len() + chunk@.len() <= NONCE_LEN,
                self.remote_nonce@ == old(self).remote_nonce@ + chunk@.take(i as int),
                self.key == old(self).key,
                self.local_nonce == old(self).local_nonce,
                self.sent == old(self).sent,
            decreases chunk@.len() - i,
        {
            self.remote_nonce.push(chunk[i]);
            assert(self.remote_nonce@ =~= old(self).remote_nonce@ + chunk@.take(i + 1));
            i = i + 1;
        }
        assert(self.remote_nonce@ =~= old(self).remote_nonce@ + chunk@);
    }

    /// Whether the nonce exchange has fully completed in both directions.
    pub fn is_complete(&self) -> (r: bool)
        requires
            self.wf(),
        ensures
            r == self.complete(),
    {
        self.sent == NONCE_LEN && self.remote_nonce.len() == NONCE_LEN
    }

    /// Construct the encrypted channel from a completed exchange: the send
    /// keystream is keyed by (key, local nonce) at cursor zero, the receive
    /// keystream by (key, remote nonce) at cursor zero.
    pub fn finish(self) -> (r: PnetOutput)
        requires
            self.wf(),
            self.complete(),
        ensures
            r.wf(),
            r.send_state().key() == self.key@,
            r.send_state().nonce() == self.local_nonce@,
            r.send_state().cursor() == 0,
            r.recv_state().key() == self.key@,
            r.recv_state().nonce() == self.remote_nonce@,
            r.recv_state().cursor() == 0,
    {
        let send = KeystreamState::new(&self.key, &self.local_nonce);
        let recv = KeystreamState::new(&self.key, &self.remote_nonce);
        PnetOutput::new(send, recv)
    }

    /// Feed one I/O event to the machine. An I/O error during the nonce
    /// exchange is terminal: it surfaces as a handshake-phase error and no
    /// keystream is constructed. Otherwise the exchange advances by exactly
    /// the bytes the event reports, and the encrypted channel is produced
    /// only once both directions have moved all `NONCE_LEN` bytes.
    pub fn step(self, event: HandshakeEvent) -> (r: HandshakeStep)
        requires
            self.wf(),
            match event {
                HandshakeEvent::Sent(n) => n <= NONCE_LEN - self.sent,
                HandshakeEvent::Received(chunk) => self.remote_nonce@.len() + chunk@.len()
                    <= NONCE_LEN,
                HandshakeEvent::Failed(_) => true,
            },
        ensures
            match event {
                HandshakeEvent::Sent(n) => match r {
                    HandshakeStep::Pending(h) => {
                        &&& h.wf()
                        &&& !h.complete()
                        &&& h.key == self.key
                        &&& h.local_nonce@ == self.local_nonce@
                        &&& h.sent == self.sent + n
                        &&& h.remote_nonce@ == self.remote_nonce@
                    },
                    HandshakeStep::Established(out) => {
                        &&& self.sent + n == NONCE_LEN
                        &&& self.remote_nonce@.len() == NONCE_LEN
                        &&& out.wf()
                        &&& out.send_state().key() == self.key@
                        &&& out.send_state().nonce() == self.local_nonce@
                        &&& out.send_state().cursor() == 0
                        &&& out.recv_state().key() == self.key@
                        &&& out.recv_state().nonce() == self.remote_nonce@
                        &&& out.recv_state().cursor() == 0
                    },
                    HandshakeStep::Error(_) => false,
                },
                HandshakeEvent::Received(chunk) => match r {
                    HandshakeStep::Pending(h) => {
                        &&& h.wf()
                        &&& !h.complete()
                        &&& h.key == self.key
                        &&& h.local_nonce@ == self.local_nonce@
                        &&& h.sent == self.sent
                        &&& h.remote_nonce@ == self.remote_nonce@ + chunk@
                    },
                    HandshakeStep::Established(out) => {
                        &&& self.sent == NONCE_LEN
                        &&& self.remote_nonce@.len() + chunk@.len() == NONCE_LEN
                        &&& out.wf()
                        &&& out.send_state().key() == self.key@
                        &&& out.send_state().nonce() == self.local_nonce@
                        &&& out.send_state().cursor() == 0
                        &&& out.recv_state().key() == self.key@
                        &&& out.recv_state().nonce() == self.remote_nonce@ + chunk@
                        &&& out.recv_state().cursor() == 0
                    },
                    HandshakeStep::Error(_) => false,
                },
                HandshakeEvent::Failed(code) => r == HandshakeStep::Error(
                    PnetError::HandshakeError(code),
                ),
            },
    {
        let mut next = self;
        match event {
            HandshakeEvent::Sent(n) => next.on_sent(n),
            HandshakeEvent::Received(chunk) => next.on_received(&chunk),
            HandshakeEvent::Failed(code) => {
                return HandshakeStep::Error(PnetError::HandshakeError(code));
            },
        }
        if next.is_complete() {
            HandshakeStep::Established(next.finish())
        } else {
            HandshakeStep::Pending(next)
        }
    }
}

/// A key mismatch is not detected by the handshake: whether an exchange has
/// completed depends only on how many bytes have moved in each direction,
/// never on the key, so two peers holding different pre-shared keys both
/// establish their channels and discover the mismatch only as garbled
/// plaintext at the next protocol layer.
pub proof fn lemma_key_mismatch_undetected(h1: Handshake, h2: Handshake)
    requires
        h1.sent == h2.sent,
        h1.remote_nonce@.len() == h2.remote_nonce@.len(),
    ensures
        h1.complete() == h2.complete(),
{
}

} // verus!
