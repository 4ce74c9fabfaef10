//! 64-bit FNV-1a hashing over byte streams.
//!
//! The hash is defined mathematically as a left fold over a byte sequence;
//! the executable folding functions below are proved to compute exactly that,
//! so hashing is a pure function of the encoded bytes: the same bytes always
//! give the same key, on every run.

use vstd::prelude::*;

verus! {

/// FNV-1a 64-bit offset basis.
pub const FNV_OFFSET_BASIS: u64 = 0xcbf29ce484222325;

/// FNV-1a 64-bit prime.
pub const FNV_PRIME: u64 = 0x100000001b3;

/// One FNV-1a step: fold a byte into the running hash.
pub open spec fn fnv1a_update(h: u64, b: u8) -> u64 {
    (h ^ (b as u64)).wrapping_mul(FNV_PRIME)
}

/// FNV-1a over a byte sequence, starting from running hash `h`.
pub open spec fn fnv1a(h: u64, s: Seq<u8>) -> u64
    decreases s.len(),
{
    if s.len() <= 0 {
        h
    } else {
        fnv1a(fnv1a_update(h, s[0]), s.drop_first())
    }
}

/// Hashing a concatenation equals hashing the parts in sequence.
pub broadcast proof fn lemma_fnv1a_concat(h: u64, a: Seq<u8>, b: Seq<u8>)
    ensures
        #[trigger] fnv1a(fnv1a(h, a), b) == fnv1a(h, a + b),
    decreases a.len(),
{
    if a.len() == 0 {
        assert(a + b =~= b);
    } else {
        assert((a + b)[0] == a[0]);
        assert((a + b).drop_first() =~= a.drop_first() + b);
        lemma_fnv1a_concat(fnv1a_update(h, a[0]), a.drop_first(), b);
    }
}

/// Hashing a single byte is one FNV-1a step.
proof fn lemma_fnv1a_one(h: u64, b: u8)
    ensures
        fnv1a(h, seq![b]) == fnv1a_update(h, b),
{
    assert(seq![b].drop_first() =~= Seq::<u8>::empty());
    assert(fnv1a(fnv1a_update(h, b), Seq::<u8>::empty()) == fnv1a_update(h, b));
}

// Byte encodings of the primitive field types (integers little-endian).
pub open spec fn enc_u8(x: u8) -> Seq<u8> {
    seq![x]
}

pub open spec fn enc_bool(x: bool) -> Seq<u8> {
    seq![if x { 1u8 } else { 0u8 }]
}

pub open spec fn enc_u32(x: u32) -> Seq<u8> {
    seq![x as u8, (x >> 8) as u8, (x >> 16) as u8, (x >> 24) as u8]
}

pub open spec fn enc_i32(x: i32) -> Seq<u8> {
    enc_u32(x as u32)
}

pub open spec fn enc_u64(x: u64) -> Seq<u8> {
    seq![
        x as u8,
        (x >> 8) as u8,
        (x >> 16) as u8,
        (x >> 24) as u8,
        (x >> 32) as u8,
        (x >> 40) as u8,
        (x >> 48) as u8,
        (x >> 56) as u8,
    ]
}

/// A variable-length byte string is encoded with its length in front, so two
/// adjacent strings can never blur into one another.
pub open spec fn enc_bytes(s: Seq<u8>) -> Seq<u8> {
    enc_u64(s.len() as u64) + s
}

/// One FNV-1a step, executable.
pub fn fnv1a_step(h: u64, b: u8) -> (r: u64)
    ensures
        r == fnv1a_update(h, b),
{
    (h ^ (b as u64)).wrapping_mul(FNV_PRIME)
}

/// Folds one byte into the running hash.
pub fn hash_u8(h: u64, x: u8) -> (r: u64)
    ensures
        r == fnv1a(h, enc_u8(x)),
{
    proof {
        lemma_fnv1a_one(h, x);
    }
    fnv1a_step(h, x)
}

/// Folds a boolean (one byte, 0 or 1) into the running hash.
pub fn hash_bool(h: u64, x: bool) -> (r: u64)
    ensures
        r == fnv1a(h, enc_bool(x)),
{
    let b: u8 = if x {
        1
    } else {
        0
    };
    proof {
        lemma_fnv1a_one(h, b);
    }
    fnv1a_step(h, b)
}

/// Folds a 32-bit value (little-endian) into the running hash.
pub fn hash_u32(h: u64, x: u32) -> (r: u64)
    ensures
        r == fnv1a(h, enc_u32(x)),
{
    let b0: u8 = #[verifier::truncate] (x as u8);
    let b1: u8 = #[verifier::truncate] ((x >> 8) as u8);
    let b2: u8 = #[verifier::truncate] ((x >> 16) as u8);
    let b3: u8 = #[verifier::truncate] ((x >> 24) as u8);
    let h0 = fnv1a_step(h, b0);
    let h1 = fnv1a_step(h0, b1);
    let h2 = fnv1a_step(h1, b2);
    let h3 = fnv1a_step(h2, b3);
    proof {
        lemma_fnv1a_one(h, b0);
        lemma_fnv1a_one(h0, b1);
        lemma_fnv1a_one(h1, b2);
        lemma_fnv1a_one(h2, b3);
        lemma_fnv1a_concat(h, seq![b0], seq![b1]);
        lemma_fnv1a_concat(h, seq![b0] + seq![b1], seq![b2]);
        lemma_fnv1a_concat(h, seq![b0] + seq![b1] + seq![b2], seq![b3]);
        assert(enc_u32(x) =~= seq![b0] + seq![b1] + seq![b2] + seq![b3]);
    }
    h3
}

/// Folds a signed 32-bit value (by its bit pattern) into the running hash.
pub fn hash_i32(h: u64, x: i32) -> (r: u64)
    ensures
        r == fnv1a(h, enc_i32(x)),
{
    hash_u32(h, #[verifier::truncate] (x as u32))
}

/// Folds a 64-bit value (little-endian) into the running hash.
pub fn hash_u64(h: u64, x: u64) -> (r: u64)
    ensures
        r == fnv1a(h, enc_u64(x)),
{
    let b0: u8 = #[verifier::truncate] (x as u8);
    let b1: u8 = #[verifier::truncate] ((x >> 8) as u8);
    let b2: u8 = #[verifier::truncate] ((x >> 16) as u8);
    let b3: u8 = #[verifier::truncate] ((x >> 24) as u8);
    let b4: u8 = #[verifier::truncate] ((x >> 32) as u8);
    let b5: u8 = #[verifier::truncate] ((x >> 40) as u8);
    let b6: u8 = #[verifier::truncate] ((x >> 48) as u8);
    let b7: u8 = #[verifier::truncate] ((x >> 56) as u8);
    let h0 = fnv1a_step(h, b0);
    let h1 = fnv1a_step(h0, b1);
    let h2 = fnv1a_step(h1, b2);
    let h3 = fnv1a_step(h2, b3);
    let h4 = fnv1a_step(h3, b4);
    let h5 = fnv1a_step(h4, b5);
    let h6 = fnv1a_step(h5, b6);
    let h7 = fnv1a_step(h6, b7);
    proof {
        lemma_fnv1a_one(h, b0);
        lemma_fnv1a_one(h0, b1);
        lemma_fnv1a_one(h1, b2);
        lemma_fnv1a_one(h2, b3);
        lemma_fnv1a_one(h3, b4);
        lemma_fnv1a_one(h4, b5);
        lemma_fnv1a_one(h5, b6);
        lemma_fnv1a_one(h6, b7);
        lemma_fnv1a_concat(h, seq![b0], seq![b1]);
        lemma_fnv1a_concat(h, seq![b0] + seq![b1], seq![b2]);
        lemma_fnv1a_concat(h, seq![b0] + seq![b1] + seq![b2], seq![b3]);
        lemma_fnv1a_concat(h, seq![b0] + seq![b1] + seq![b2] + seq![b3], seq![b4]);
        lemma_fnv1a_concat(h, seq![b0] + seq![b1] + seq![b2] + seq![b3] + seq![b4], seq![b5]);
        lemma_fnv1a_concat(
            h,
            seq![b0] + seq![b1] + seq![b2] + seq![b3] + seq![b4] + seq![b5],
            seq![b6],
        );
        lemma_fnv1a_concat(
            h,
            seq![b0] + seq![b1] + seq![b2] + seq![b3] + seq![b4] + seq![b5] + seq![b6],
            seq![b7],
        );
        assert(enc_u64(x) =~= seq![b0] + seq![b1] + seq![b2] + seq![b3] + seq![b4] + seq![b5]
            + seq![b6] + seq![b7]);
    }
    h7
}

/// Folds raw bytes (no length prefix) into the running hash.
pub fn hash_raw_bytes(h: u64, bytes: &Vec<u8>) -> (r: u64)
    ensures
        r == fnv1a(h, bytes@),
{
    let mut acc = h;
    let mut i: usize = 0;
    while i < bytes.len()
        invariant
            i <= bytes@.len(),
            acc == fnv1a(h, bytes@.subrange(0, i as int)),
        decreases bytes@.len() - i,
    {
        proof {
            assert(bytes@.subrange(0, i + 1) =~= bytes@.subrange(0, i as int) + seq![
                bytes@[i as int],
            ]);
            lemma_fnv1a_one(acc, bytes@[i as int]);
            lemma_fnv1a_concat(h, bytes@.subrange(0, i as int), seq![bytes@[i as int]]);
        }
        acc = fnv1a_step(acc, bytes[i]);
        i = i + 1;
    }
    proof {
        assert(bytes@.subrange(0, bytes@.len() as int) =~= bytes@);
    }
    acc
}

/// Folds a length-prefixed byte string into the running hash.
pub fn hash_bytes(h: u64, bytes: &Vec<u8>) -> (r: u64)
    ensures
        r == fnv1a(h, enc_bytes(bytes@)),
{
    let h1 = hash_u64(h, bytes.len() as u64);
    let r = hash_raw_bytes(h1, bytes);
    proof {
        lemma_fnv1a_concat(h, enc_u64(bytes@.len() as u64), bytes@);
    }
    r
}

} // verus!
