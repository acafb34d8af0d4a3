//! Per-direction keystream: an infinite pseudorandom byte sequence derived
//! from (pre-shared key, nonce), combined with plaintext or ciphertext by
//! exclusive-or. The cursor over the sequence advances by exactly the number
//! of bytes processed, monotonically, never rewound.

use vstd::prelude::*;
use crate::PreSharedKey;

verus! {

/// Number of bytes in a handshake nonce: a protocol constant shared by both
/// peers; each side sends exactly this many bytes and reads exactly this many.
pub const NONCE_LEN: usize = 32;

/// One diffusion step of the 64-bit generator state (xorshift).
pub open spec fn spec_mix64(s: u64) -> u64 {
    let a = s ^ (s << 13u64);
    let b = a ^ (a >> 7u64);
    b ^ (b << 17u64)
}

fn mix64(s: u64) -> (r: u64)
    ensures
        r == spec_mix64(s),
{
    let a = s ^ (s << 13u64);
    let b = a ^ (a >> 7u64);
    b ^ (b << 17u64)
}

/// Fold one byte into the generator state.
pub open spec fn absorb(s: u64, b: u8) -> u64 {
    spec_mix64(s ^ (b as u64))
}

/// Fold a byte sequence into the generator state, left to right.
pub open spec fn absorb_seq(s: u64, data: Seq<u8>) -> u64
    decreases data.len(),
{
    if data.len() == 0 {
        s
    } else {
        absorb(absorb_seq(s, data.drop_last()), data.last())
    }
}

/// Initial generator state, before any key or nonce byte is absorbed.
pub const SEED_INIT: u64 = 0x6a09e667f3bcc908;

/// Generator state seeded from a (key, nonce) pair: the key bytes are
/// absorbed first, then the nonce bytes.
pub open spec fn seed_of(key: Seq<u8>, nonce: Seq<u8>) -> u64 {
    absorb_seq(absorb_seq(SEED_INIT, key), nonce)
}

/// Generator state after emitting `i` keystream bytes.
pub open spec fn state_at(key: Seq<u8>, nonce: Seq<u8>, i: nat) -> u64
    decreases i,
{
    if i == 0 {
        seed_of(key, nonce)
    } else {
        spec_mix64(state_at(key, nonce, (i - 1) as nat))
    }
}

/// Byte `i` of the keystream derived from (key, nonce).
pub open spec fn keystream_byte(key: Seq<u8>, nonce: Seq<u8>, i: nat) -> u8 {
    (state_at(key, nonce, i + 1) % 256) as u8
}

/// `data` combined byte-for-byte with the keystream starting at position
/// `start`: the single reversible operation used for both encryption and
/// decryption.
pub open spec fn xor_keystream(key: Seq<u8>, nonce: Seq<u8>, start: nat, data: Seq<u8>) -> Seq<u8> {
    Seq::new(data.len(), |j: int| data[j] ^ keystream_byte(key, nonce, (start + j) as nat))
}

proof fn lemma_u8_xor_involution(a: u8, k: u8)
    by (bit_vector)
    ensures
        (a ^ k) ^ k == a,
{
}

proof fn lemma_u8_xor_distinct(a: u8, k1: u8, k2: u8)
    by (bit_vector)
    requires
        k1 != k2,
    ensures
        (a ^ k1) ^ k2 != a,
{
}

/// Round trip: combining a byte sequence with the keystream twice, from the
/// same (key, nonce) and the same cursor position, yields the original
/// sequence. Decryption at the receiving cursor inverts encryption at the
/// matching sending cursor.
pub proof fn lemma_round_trip(key: Seq<u8>, nonce: Seq<u8>, start: nat, data: Seq<u8>)
    ensures
        xor_keystream(key, nonce, start, xor_keystream(key, nonce, start, data)) == data,
{
    let once = xor_keystream(key, nonce, start, data);
    let twice = xor_keystream(key, nonce, start, once);
    assert forall|j: int| 0 <= j < data.len() implies twice[j] == data[j] by {
        lemma_u8_xor_involution(data[j], keystream_byte(key, nonce, (start + j) as nat));
    }
    assert(twice =~= data);
}

/// Keystream determinism: the ciphertext depends only on the key, the nonce,
/// the cursor position and the data. Two keystream instances constructed from
/// the same (key, nonce) pair and advanced equally produce identical output.
pub proof fn lemma_keystream_deterministic(
    key1: Seq<u8>,
    nonce1: Seq<u8>,
    key2: Seq<u8>,
    nonce2: Seq<u8>,
    start: nat,
    data: Seq<u8>,
)
    requires
        key1 == key2,
        nonce1 == nonce2,
    ensures
        xor_keystream(key1, nonce1, start, data) == xor_keystream(key2, nonce2, start, data),
{
}

/// Partial I/O correctness: encrypting a sequence in two chunks, advancing
/// the cursor by exactly the bytes of the first chunk in between, gives the
/// same ciphertext as encrypting it in one piece. Keystream consumption is
/// coupled one-to-one and in order with the bytes processed, independent of
/// how many calls that takes.
pub proof fn lemma_xor_keystream_split(
    key: Seq<u8>,
    nonce: Seq<u8>,
    start: nat,
    data: Seq<u8>,
    k: int,
)
    requires
        0 <= k <= data.len(),
    ensures
        xor_keystream(key, nonce, start, data) == xor_keystream(key, nonce, start, data.take(k))
            + xor_keystream(key, nonce, (start + k) as nat, data.skip(k)),
{
    let whole = xor_keystream(key, nonce, start, data);
    let first = xor_keystream(key, nonce, start, data.take(k));
    let second = xor_keystream(key, nonce, (start + k) as nat, data.skip(k));
    assert forall|j: int| 0 <= j < data.len() implies whole[j] == (first + second)[j] by {
        if j < k {
            assert(data.take(k)[j] == data[j]);
        } else {
            assert(data.skip(k)[j - k] == data[j]);
            assert((first + second)[j] == second[j - k]);
        }
    }
    assert(whole =~= first + second);
}

/// Confidentiality boundary under a key mismatch: wherever the two keys'
/// keystreams differ, decrypting with the wrong key does not recover the
/// plaintext byte. (The keystreams of two distinct keys agreeing at a
/// position is possible in principle, so the statement is per position.)
pub proof fn lemma_wrong_key_garbles(
    key_enc: Seq<u8>,
    key_dec: Seq<u8>,
    nonce: Seq<u8>,
    start: nat,
    data: Seq<u8>,
    j: int,
)
    requires
        0 <= j < data.len(),
        keystream_byte(key_enc, nonce, (start + j) as nat) != keystream_byte(
            key_dec,
            nonce,
            (start + j) as nat,
        ),
    ensures
        xor_keystream(key_dec, nonce, start, xor_keystream(key_enc, nonce, start, data))[j]
            != data[j],
{
    lemma_u8_xor_distinct(
        data[j],
        keystream_byte(key_enc, nonce, (start + j) as nat),
        keystream_byte(key_dec, nonce, (start + j) as nat),
    );
}

fn absorb_slice(s: u64, data: &[u8]) -> (r: u64)
    ensures
        r == absorb_seq(s, data@),
{
    let n = data.len();
    let mut acc: u64 = s;
    let mut i: usize = 0;
    while i < n
        invariant
            i <= n,
            n == data@.len(),
            acc == absorb_seq(s, data@.take(i as int)),
        decreases n - i,
    {
        assert(data@.take(i as int + 1).drop_last() =~= data@.take(i as int));
        assert(data@.take(i as int + 1).last() == data@[i as int]);
        acc = mix64(acc ^ (data[i] as u64));
        i = i + 1;
    }
    assert(data@.take(n as int) =~= data@);
    acc
}

/// A per-direction cursor over the keystream derived from (key, nonce).
/// Holds the current generator state and the number of keystream bytes
/// already consumed; the key and nonce themselves are kept only in ghost
/// form, consumed into the seed at construction.
pub struct KeystreamState {
    state: u64,
    pos: u64,
    gkey: Ghost<Seq<u8>>,
    gnonce: Ghost<Seq<u8>>,
}

impl KeystreamState {
    /// The key this direction's keystream was derived from.
    pub closed spec fn key(self) -> Seq<u8> {
        self.gkey@
    }

    /// The nonce this direction's keystream was derived from.
    pub closed spec fn nonce(self) -> Seq<u8> {
        self.gnonce@
    }

    /// How many keystream bytes have been consumed so far.
    pub closed spec fn cursor(self) -> nat {
        self.pos as nat
    }

    /// The generator state matches the ghost key, nonce and cursor.
    pub closed spec fn wf(self) -> bool {
        self.state == state_at(self.gkey@, self.gnonce@, self.pos as nat)
    }

    /// Construct the keystream for one direction from the pre-shared key and
    /// that direction's nonce, with the cursor at zero.
    pub fn new(key: &PreSharedKey, nonce: &Vec<u8>) -> (r: KeystreamState)
        ensures
            r.wf(),
            r.key() == key@,
            r.nonce() == nonce@,
            r.cursor() == 0,
    {
        let after_key = absorb_slice(SEED_INIT, key.0.as_slice());
        let seed = absorb_slice(after_key, nonce.as_slice());
        KeystreamState {
            state: seed,
            pos: 0,
            gkey: Ghost(key@),
            gnonce: Ghost(nonce@),
        }
    }

    /// The current cursor position as an executable value.
    pub fn position(&self) -> (r: u64)
        ensures
            r as nat == self.cursor(),
    {
        self.pos
    }

    /// Combine `data` in place with the keystream at the current cursor and
    /// advance the cursor by exactly `data.len()` bytes.
    pub fn apply(&mut self, data: &mut Vec<u8>)
        requires
            old(self).wf(),
            old(self).cursor() + old(data)@.len() <= u64::MAX,
        ensures
            final(self).wf(),
            final(self).key() == old(self).key(),
            final(self).nonce() == old(self).nonce(),
            final(self).cursor() == old(self).cursor() + old(data)@.len(),
            final(data)@ == xor_keystream(old(self).key(), old(self).nonce(), old(self).cursor(), old(data)@),
    {
        let ghost orig = data@;
        let ghost c0 = self.pos as nat;
        let n = data.len();
        let mut i: usize = 0;
        while i < n
            invariant
                i <= n,
                n == orig.len(),
                data@.len() == orig.len(),
                self.gkey == old(self).gkey,
                self.gnonce == old(self).gnonce,
                self.pos as nat == c0 + i,
                c0 + n <= u64::MAX,
                self.state == state_at(self.gkey@, self.gnonce@, self.pos as nat),
                forall|j: int| 0 <= j < i ==> data@[j] == orig[j] ^ keystream_byte(
                    self.gkey@, self.gnonce@, (c0 + j) as nat),
                forall|j: int| i <= j < n ==> data@[j] == orig[j],
            decreases n - i,
        {
            self.state = mix64(self.state);
            let k = (self.state % 256) as u8;
            let d = data[i];
            data.set(i, d ^ k);
            self.pos = self.pos + 1;
            i = i + 1;
        }
        assert(data@ =~= xor_keystream(self.gkey@, self.gnonce@, c0, orig));
    }

    /// Combine the first `k` bytes of `data` with the keystream at the
    /// current cursor into a fresh vector, consuming no keystream: the cursor
    /// is not advanced, so the same bytes can be re-derived until a later
    /// `advance` commits them.
    pub fn apply_copy(&self, data: &Vec<u8>, k: usize) -> (r: Vec<u8>)
        requires
            self.wf(),
            k <= data@.len(),
            self.cursor() + k <= u64::MAX,
        ensures
            r@ == xor_keystream(self.key(), self.nonce(), self.cursor(), data@.take(k as int)),
    {
        let mut s: u64 = self.state;
        let mut out: Vec<u8> = Vec::new();
        let ghost c0 = self.pos as nat;
        let mut i: usize = 0;
        while i < k
            invariant
                i <= k,
                k <= data@.len(),
                self.wf(),
                c0 == self.cursor(),
                c0 + k <= u64::MAX,
                s == state_at(self.key(), self.nonce(), (c0 + i) as nat),
                out@.len() == i,
                forall|j: int| 0 <= j < i ==> out@[j] == data@[j] ^ keystream_byte(
                    self.key(), self.nonce(), (c0 + j) as nat),
            decreases k - i,
        {
            s = mix64(s);
            let k_byte = (s % 256) as u8;
            out.push(data[i] ^ k_byte);
            i = i + 1;
        }
        assert(out@ =~= xor_keystream(self.key(), self.nonce(), c0, data@.take(k as int)));
        out
    }

    /// Advance the cursor by exactly `n` bytes, discarding that much
    /// keystream: commits keystream bytes whose ciphertext was produced by
    /// `apply_copy` and has now actually left on the wire.
    pub fn advance(&mut self, n: usize)
        requires
            old(self).wf(),
            old(self).cursor() + n <= u64::MAX,
        ensures
            final(self).wf(),
            final(self).key() == old(self).key(),
            final(self).nonce() == old(self).nonce(),
            final(self).cursor() == old(self).cursor() + n,
    {
        let ghost c0 = self.pos as nat;
        let mut i: usize = 0;
        while i < n
            invariant
                i <= n,
                self.gkey == old(self).gkey,
                self.gnonce == old(self).gnonce,
                self.pos as nat == c0 + i,
                c0 + n <= u64::MAX,
                self.state == state_at(self.gkey@, self.gnonce@, self.pos as nat),
            decreases n - i,
        {
            self.state = mix64(self.state);
            self.pos = self.pos + 1;
            i = i + 1;
        }
    }
}

} // verus!
