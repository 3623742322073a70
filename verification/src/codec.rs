//! Little-endian byte encoding of the values that governance payloads and
//! account seeds are built from (the layout Borsh uses for these types).
use vstd::prelude::*;
use crate::keys::Key32;

verus! {

pub open spec fn le_u16(x: u16) -> Seq<u8> {
    seq![x as u8, (x >> 8u16) as u8]
}

pub open spec fn le_u32(x: u32) -> Seq<u8> {
    seq![x as u8, (x >> 8u32) as u8, (x >> 16u32) as u8, (x >> 24u32) as u8]
}

pub open spec fn le_u64(x: u64) -> Seq<u8> {
    seq![
        x as u8, (x >> 8u64) as u8, (x >> 16u64) as u8, (x >> 24u64) as u8,
        (x >> 32u64) as u8, (x >> 40u64) as u8, (x >> 48u64) as u8, (x >> 56u64) as u8,
    ]
}

/// Two's-complement little-endian bytes of an `i64`.
pub open spec fn le_i64(x: i64) -> Seq<u8> {
    le_u64(x as u64)
}

/// The 32 bytes of a key, word by word, least significant byte first.
pub open spec fn key_bytes(k: Key32) -> Seq<u8> {
    le_u64(k.w0) + le_u64(k.w1) + le_u64(k.w2) + le_u64(k.w3)
}

pub open spec fn bool_byte(b: bool) -> Seq<u8> {
    if b { seq![1u8] } else { seq![0u8] }
}

/// Borsh encoding of a byte vector: its `u32` length, then its bytes.
pub open spec fn borsh_bytes(bytes: Seq<u8>) -> Seq<u8> {
    le_u32(bytes.len() as u32) + bytes
}

pub fn push_u8(out: &mut Vec<u8>, x: u8)
    ensures
        final(out)@ == old(out)@ + seq![x],
{
    out.push(x);
}

pub fn push_u16(out: &mut Vec<u8>, x: u16)
    ensures
        final(out)@ == old(out)@ + le_u16(x),
        le_u16(x).len() == 2,
{
    out.push(x as u8);
    out.push((x >> 8u16) as u8);
    assert(out@ =~= old(out)@ + le_u16(x));
}

pub fn push_u32(out: &mut Vec<u8>, x: u32)
    ensures
        final(out)@ == old(out)@ + le_u32(x),
        le_u32(x).len() == 4,
{
    out.push(x as u8);
    out.push((x >> 8u32) as u8);
    out.push((x >> 16u32) as u8);
    out.push((x >> 24u32) as u8);
    assert(out@ =~= old(out)@ + le_u32(x));
}

pub fn push_u64(out: &mut Vec<u8>, x: u64)
    ensures
        final(out)@ == old(out)@ + le_u64(x),
        le_u64(x).len() == 8,
{
    out.push(x as u8);
    out.push((x >> 8u64) as u8);
    out.push((x >> 16u64) as u8);
    out.push((x >> 24u64) as u8);
    out.push((x >> 32u64) as u8);
    out.push((x >> 40u64) as u8);
    out.push((x >> 48u64) as u8);
    out.push((x >> 56u64) as u8);
    assert(out@ =~= old(out)@ + le_u64(x));
}

pub fn push_i64(out: &mut Vec<u8>, x: i64)
    ensures
        final(out)@ == old(out)@ + le_i64(x),
        le_i64(x).len() == 8,
{
    push_u64(out, x as u64);
}

pub fn push_bool(out: &mut Vec<u8>, b: bool)
    ensures
        final(out)@ == old(out)@ + bool_byte(b),
{
    if b {
        out.push(1u8);
    } else {
        out.push(0u8);
    }
    assert(out@ =~= old(out)@ + bool_byte(b));
}

pub fn push_key(out: &mut Vec<u8>, k: Key32)
    ensures
        final(out)@ == old(out)@ + key_bytes(k),
        key_bytes(k).len() == 32,
{
    push_u64(out, k.w0);
    push_u64(out, k.w1);
    push_u64(out, k.w2);
    push_u64(out, k.w3);
    assert(out@ =~= old(out)@ + key_bytes(k));
}

pub fn push_bytes(out: &mut Vec<u8>, bytes: &[u8])
    ensures
        final(out)@ == old(out)@ + bytes@,
{
    let ghost start = out@;
    let mut i: usize = 0;
    while i < bytes.len()
        invariant
            i <= bytes@.len(),
            out@ == start + bytes@.subrange(0, i as int),
        decreases bytes@.len() - i,
    {
        out.push(bytes[i]);
        i = i + 1;
        assert(out@ =~= start + bytes@.subrange(0, i as int));
    }
    assert(bytes@.subrange(0, i as int) =~= bytes@);
}

/// The 32 bytes of `k` as a vector (e.g. for use as an address seed).
pub fn key_to_vec(k: Key32) -> (v: Vec<u8>)
    ensures
        v@ == key_bytes(k),
{
    let mut v: Vec<u8> = Vec::new();
    push_key(&mut v, k);
    assert(v@ =~= key_bytes(k));
    v
}

/// Two concatenations that are equal and split at the same length have
/// equal parts.
pub proof fn lemma_concat_split(a1: Seq<u8>, b1: Seq<u8>, a2: Seq<u8>, b2: Seq<u8>)
    requires
        a1 + b1 == a2 + b2,
        a1.len() == a2.len(),
    ensures
        a1 == a2,
        b1 == b2,
{
    assert(a1 =~= (a1 + b1).subrange(0, a1.len() as int));
    assert(a2 =~= (a2 + b2).subrange(0, a2.len() as int));
    assert(b1 =~= (a1 + b1).subrange(a1.len() as int, (a1 + b1).len() as int));
    assert(b2 =~= (a2 + b2).subrange(a2.len() as int, (a2 + b2).len() as int));
}

/// Distinct `u16` values have distinct encodings.
pub proof fn lemma_le_u16_injective(x: u16, y: u16)
    requires
        le_u16(x) == le_u16(y),
    ensures
        x == y,
{
    assert(le_u16(x)[0] == le_u16(y)[0]);
    assert(le_u16(x)[1] == le_u16(y)[1]);
    let x0: u8 = x as u8;
    let y0: u8 = y as u8;
    let x1: u8 = (x >> 8u16) as u8;
    let y1: u8 = (y >> 8u16) as u8;
    assert(x == y) by (bit_vector)
        requires
            x0 == x as u8, y0 == y as u8, x1 == (x >> 8u16) as u8, y1 == (y >> 8u16) as u8, x0 == y0, x1 == y1,
    ;
}

/// Distinct `u64` values have distinct encodings.
pub proof fn lemma_le_u64_injective(x: u64, y: u64)
    requires
        le_u64(x) == le_u64(y),
    ensures
        x == y,
{
    assert(le_u64(x)[0] == le_u64(y)[0]);
    assert(le_u64(x)[1] == le_u64(y)[1]);
    assert(le_u64(x)[2] == le_u64(y)[2]);
    assert(le_u64(x)[3] == le_u64(y)[3]);
    assert(le_u64(x)[4] == le_u64(y)[4]);
    assert(le_u64(x)[5] == le_u64(y)[5]);
    assert(le_u64(x)[6] == le_u64(y)[6]);
    assert(le_u64(x)[7] == le_u64(y)[7]);
    assert(x == y) by (bit_vector)
        requires
            x as u8 == y as u8,
            (x >> 8u64) as u8 == (y >> 8u64) as u8,
            (x >> 16u64) as u8 == (y >> 16u64) as u8,
            (x >> 24u64) as u8 == (y >> 24u64) as u8,
            (x >> 32u64) as u8 == (y >> 32u64) as u8,
            (x >> 40u64) as u8 == (y >> 40u64) as u8,
            (x >> 48u64) as u8 == (y >> 48u64) as u8,
            (x >> 56u64) as u8 == (y >> 56u64) as u8,
    ;
}

/// Distinct `i64` values have distinct encodings.
pub proof fn lemma_le_i64_injective(x: i64, y: i64)
    requires
        le_i64(x) == le_i64(y),
    ensures
        x == y,
{
    lemma_le_u64_injective(x as u64, y as u64);
    assert(x == y) by (bit_vector)
        requires
            x as u64 == y as u64,
    ;
}

/// Distinct keys have distinct encodings.
pub proof fn lemma_key_bytes_injective(a: Key32, b: Key32)
    requires
        key_bytes(a) == key_bytes(b),
    ensures
        a == b,
{
    lemma_concat_split(le_u64(a.w0) + le_u64(a.w1) + le_u64(a.w2), le_u64(a.w3),
        le_u64(b.w0) + le_u64(b.w1) + le_u64(b.w2), le_u64(b.w3));
    lemma_concat_split(le_u64(a.w0) + le_u64(a.w1), le_u64(a.w2), le_u64(b.w0) + le_u64(b.w1), le_u64(b.w2));
    lemma_concat_split(le_u64(a.w0), le_u64(a.w1), le_u64(b.w0), le_u64(b.w1));
    lemma_le_u64_injective(a.w0, b.w0);
    lemma_le_u64_injective(a.w1, b.w1);
    lemma_le_u64_injective(a.w2, b.w2);
    lemma_le_u64_injective(a.w3, b.w3);
}

/// Distinct booleans have distinct encodings.
pub proof fn lemma_bool_byte_injective(a: bool, b: bool)
    requires
        bool_byte(a) == bool_byte(b),
    ensures
        a == b,
{
    assert(bool_byte(a)[0] == bool_byte(b)[0]);
    assert(seq![1u8][0] == 1u8);
    assert(seq![0u8][0] == 0u8);
}

/// Two one-byte sequences are equal only with equal bytes.
pub proof fn lemma_byte_injective(a: u8, b: u8)
    requires
        seq![a] == seq![b],
    ensures
        a == b,
{
    assert(seq![a][0] == a);
    assert(seq![b][0] == b);
}

/// The encoding of a key, as one piece whose contents proofs about
/// whole layouts need not look into.
#[verifier::opaque]
pub open spec fn key_part(k: Key32) -> Seq<u8> {
    key_bytes(k)
}

/// The piece for a key has a fixed length and determines the value.
pub proof fn lemma_key_part(a: Key32, b: Key32)
    ensures
        key_part(a).len() == 32,
        key_part(a) == key_part(b) ==> a == b,
{
    reveal(key_part);
    if key_part(a) == key_part(b) {
        lemma_key_bytes_injective(a, b);
    }
}

/// The encoding of a `u16`, as one piece whose contents proofs about
/// whole layouts need not look into.
#[verifier::opaque]
pub open spec fn u16_part(x: u16) -> Seq<u8> {
    le_u16(x)
}

/// The piece for a `u16` has a fixed length and determines the value.
pub proof fn lemma_u16_part(a: u16, b: u16)
    ensures
        u16_part(a).len() == 2,
        u16_part(a) == u16_part(b) ==> a == b,
{
    reveal(u16_part);
    if u16_part(a) == u16_part(b) {
        lemma_le_u16_injective(a, b);
    }
}

/// The encoding of a `u64`, as one piece whose contents proofs about
/// whole layouts need not look into.
#[verifier::opaque]
pub open spec fn u64_part(x: u64) -> Seq<u8> {
    le_u64(x)
}

/// The piece for a `u64` has a fixed length and determines the value.
pub proof fn lemma_u64_part(a: u64, b: u64)
    ensures
        u64_part(a).len() == 8,
        u64_part(a) == u64_part(b) ==> a == b,
{
    reveal(u64_part);
    if u64_part(a) == u64_part(b) {
        lemma_le_u64_injective(a, b);
    }
}

/// The encoding of an `i64`, as one piece whose contents proofs about
/// whole layouts need not look into.
#[verifier::opaque]
pub open spec fn i64_part(x: i64) -> Seq<u8> {
    le_i64(x)
}

/// The piece for an `i64` has a fixed length and determines the value.
pub proof fn lemma_i64_part(a: i64, b: i64)
    ensures
        i64_part(a).len() == 8,
        i64_part(a) == i64_part(b) ==> a == b,
{
    reveal(i64_part);
    if i64_part(a) == i64_part(b) {
        lemma_le_i64_injective(a, b);
    }
}

/// The encoding of a boolean, as one piece whose contents proofs about
/// whole layouts need not look into.
#[verifier::opaque]
pub open spec fn bool_part(b: bool) -> Seq<u8> {
    bool_byte(b)
}

/// The piece for a boolean has a fixed length and determines the value.
pub proof fn lemma_bool_part(a: bool, b: bool)
    ensures
        bool_part(a).len() == 1,
        bool_part(a) == bool_part(b) ==> a == b,
{
    reveal(bool_part);
    if bool_part(a) == bool_part(b) {
        lemma_bool_byte_injective(a, b);
    }
}

/// The encoding of a single byte, as one piece whose contents proofs about
/// whole layouts need not look into.
#[verifier::opaque]
pub open spec fn byte_part(b: u8) -> Seq<u8> {
    seq![b]
}

/// The piece for a single byte has a fixed length and determines the value.
pub proof fn lemma_byte_part(a: u8, b: u8)
    ensures
        byte_part(a).len() == 1,
        byte_part(a) == byte_part(b) ==> a == b,
{
    reveal(byte_part);
    if byte_part(a) == byte_part(b) {
        lemma_byte_injective(a, b);
    }
}

} // verus!
