//! Private-network transport security layer: two peers holding an identical
//! pre-shared secret exchange nonces over an already-connected duplex byte
//! stream and then encrypt all traffic with a per-direction symmetric
//! keystream. Confidentiality only: no identity, no integrity, no rekeying.

use vstd::prelude::*;

pub mod handshake;
pub mod keystream;
pub mod output;

pub use handshake::{Handshake, HandshakeEvent, HandshakeStep};
pub use keystream::{KeystreamState, NONCE_LEN};
pub use output::PnetOutput;

verus! {

/// Number of bytes in a pre-shared key.
pub const KEY_LEN: usize = 32;

/// A pre-shared key, consisting of 32 bytes of random data.
#[derive(Copy, Clone, PartialEq, Eq, Debug)]
pub struct PreSharedKey(pub [u8; KEY_LEN]);

impl View for PreSharedKey {
    type V = Seq<u8>;

    closed spec fn view(&self) -> Seq<u8> {
        self.0@
    }
}

impl PreSharedKey {
    /// Create a new pre shared key from raw bytes.
    pub fn new(data: [u8; KEY_LEN]) -> (r: Self)
        ensures
            r@ == data@,
    {
        Self(data)
    }
}

/// Private network configuration: the pre-shared key to use for encryption.
#[derive(Debug, Copy, Clone)]
pub struct PnetConfig {
    /// the PreSharedKey to use for encryption
    pub key: PreSharedKey,
}

impl PnetConfig {
    pub fn new(key: PreSharedKey) -> (r: Self)
        ensures
            r.key == key,
    {
        Self { key }
    }
}

/// Error when writing or reading private swarms. Each variant carries the raw
/// OS error code of the underlying I/O error (0 when no code is available);
/// the embedding layer keeps the full error value.
#[derive(Debug, Clone, Copy, PartialEq, Eq, Structural)]
pub enum PnetError {
    /// Error during handshake.
    HandshakeError(i32),
    /// I/O error.
    IoError(i32),
}

/// A bare I/O error code outside the handshake phase converts to the
/// post-handshake variant: the cipher step introduces no error conditions of
/// its own beyond what the underlying transport reports.
impl From<i32> for PnetError {
    fn from(code: i32) -> (r: PnetError) {
        PnetError::IoError(code)
    }
}

impl vstd::std_specs::convert::FromSpecImpl<i32> for PnetError {
    open spec fn obeys_from_spec() -> bool {
        true
    }

    open spec fn from_spec(code: i32) -> PnetError {
        PnetError::IoError(code)
    }
}

} // verus!
