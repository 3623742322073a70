//! 32-byte account keys and payload hashes held as four little-endian words.
use vstd::prelude::*;

verus! {

/// A 32-byte value (an account address or a payload hash), held as four
/// little-endian 64-bit words so that equality is structural.
#[derive(Clone, Copy, Debug, PartialEq, Eq, Structural, Hash)]
pub struct Key32 {
    pub w0: u64,
    pub w1: u64,
    pub w2: u64,
    pub w3: u64,
}

/// An account address.
pub type Pubkey = Key32;

/// A 32-byte payload or parameters hash.
pub type Hash32 = Key32;

/// The little-endian word made of bytes `off .. off + 8` of `s`.
pub open spec fn spec_word(s: Seq<u8>, off: int) -> u64 {
    (s[off] as u64)
        | ((s[off + 1] as u64) << 8u64)
        | ((s[off + 2] as u64) << 16u64)
        | ((s[off + 3] as u64) << 24u64)
        | ((s[off + 4] as u64) << 32u64)
        | ((s[off + 5] as u64) << 40u64)
        | ((s[off + 6] as u64) << 48u64)
        | ((s[off + 7] as u64) << 56u64)
}

/// The key whose bytes are `s` (32 bytes).
pub open spec fn spec_key_from_bytes(s: Seq<u8>) -> Key32 {
    Key32 {
        w0: spec_word(s, 0),
        w1: spec_word(s, 8),
        w2: spec_word(s, 16),
        w3: spec_word(s, 24),
    }
}

fn word_at(b: &[u8; 32], off: usize) -> (w: u64)
    requires
        off + 8 <= 32,
    ensures
        w == spec_word(b@, off as int),
{
    (b[off] as u64)
        | ((b[off + 1] as u64) << 8u64)
        | ((b[off + 2] as u64) << 16u64)
        | ((b[off + 3] as u64) << 24u64)
        | ((b[off + 4] as u64) << 32u64)
        | ((b[off + 5] as u64) << 40u64)
        | ((b[off + 6] as u64) << 48u64)
        | ((b[off + 7] as u64) << 56u64)
}

impl Key32 {
    /// The all-zero key (Solana's default address).
    pub open spec fn zero() -> Key32 {
        Key32 { w0: 0, w1: 0, w2: 0, w3: 0 }
    }

    /// Builds the key whose 32 bytes are `bytes`.
    pub fn new_from_array(bytes: [u8; 32]) -> (k: Key32)
        ensures
            k == spec_key_from_bytes(bytes@),
    {
        Key32 {
            w0: word_at(&bytes, 0),
            w1: word_at(&bytes, 8),
            w2: word_at(&bytes, 16),
            w3: word_at(&bytes, 24),
        }
    }

    /// Whether this is the all-zero key.
    pub fn is_zero(&self) -> (b: bool)
        ensures
            b == (*self == Key32::zero()),
    {
        self.w0 == 0 && self.w1 == 0 && self.w2 == 0 && self.w3 == 0
    }
}

impl Default for Key32 {
    fn default() -> (k: Key32)
        ensures
            k == Key32::zero(),
    {
        Key32 { w0: 0, w1: 0, w2: 0, w3: 0 }
    }
}


} // verus!
