//! The randomness adapter.
//!
//! Each call derives a 128-bit pseudorandom value as a one-way digest over
//! the host's entropy seed, the caller identity and a call-sequence number.
//! Distinct sequence numbers give the digest distinct inputs, so values
//! within one batch are distinct; unpredictability is only as good as the
//! host's seed.

use vstd::prelude::*;

verus! {

/// The 128-bit Blake2b digest of a byte string, named but never written out:
/// it stands for what the hashing routine of the host returns, a function of
/// the input bytes alone.
pub uninterp spec fn blake2_128_of(data: Seq<u8>) -> Seq<u8>;

/// The payload the randomness adapter hashes: the host's entropy seed, then
/// the caller identity in little-endian bytes, then the call-sequence number
/// in its tagged little-endian encoding.
pub open spec fn random_payload(seed: Seq<u8>, sender: u64, extrinsic_index: Option<u32>) -> Seq<u8> {
    seed + u64_le_bytes(sender) + option_u32_bytes(extrinsic_index)
}

/// Little-endian bytes of a 64-bit value.
pub open spec fn u64_le_bytes(x: u64) -> Seq<u8> {
    seq![
        (x & 0xff) as u8,
        ((x >> 8) & 0xff) as u8,
        ((x >> 16) & 0xff) as u8,
        ((x >> 24) & 0xff) as u8,
        ((x >> 32) & 0xff) as u8,
        ((x >> 40) & 0xff) as u8,
        ((x >> 48) & 0xff) as u8,
        ((x >> 56) & 0xff) as u8,
    ]
}

/// Little-endian bytes of a 32-bit value.
pub open spec fn u32_le_bytes(x: u32) -> Seq<u8> {
    seq![
        (x & 0xff) as u8,
        ((x >> 8) & 0xff) as u8,
        ((x >> 16) & 0xff) as u8,
        ((x >> 24) & 0xff) as u8,
    ]
}

/// A tagged optional 32-bit value: one zero byte for absence, a one byte
/// followed by the little-endian bytes for presence.
pub open spec fn option_u32_bytes(x: Option<u32>) -> Seq<u8> {
    match x {
        None => seq![0u8],
        Some(v) => seq![1u8] + u32_le_bytes(v),
    }
}

/// Two calls of the adapter with the same seed and caller but distinct
/// call-sequence numbers hash distinct payloads: the digest never sees the
/// same input twice within one execution batch.
pub proof fn lemma_distinct_sequence_distinct_payload(
    seed: Seq<u8>,
    sender: u64,
    i1: Option<u32>,
    i2: Option<u32>,
)
    requires
        i1 != i2,
    ensures
        random_payload(seed, sender, i1) != random_payload(seed, sender, i2),
{
    let p1 = random_payload(seed, sender, i1);
    let p2 = random_payload(seed, sender, i2);
    let l: int = seed.len() as int + 8;
    match (i1, i2) {
        (None, None) => {},
        (None, Some(_)) => {
            assert(p1.len() == l + 1);
            assert(p2.len() == l + 5);
        },
        (Some(_), None) => {
            assert(p1.len() == l + 5);
            assert(p2.len() == l + 1);
        },
        (Some(v1), Some(v2)) => {
            if p1 == p2 {
                assert(p1[l + 1] == (v1 & 0xff) as u8);
                assert(p1[l + 2] == ((v1 >> 8) & 0xff) as u8);
                assert(p1[l + 3] == ((v1 >> 16) & 0xff) as u8);
                assert(p1[l + 4] == ((v1 >> 24) & 0xff) as u8);
                assert(p2[l + 1] == (v2 & 0xff) as u8);
                assert(p2[l + 2] == ((v2 >> 8) & 0xff) as u8);
                assert(p2[l + 3] == ((v2 >> 16) & 0xff) as u8);
                assert(p2[l + 4] == ((v2 >> 24) & 0xff) as u8);
                assert((v1 & 0xff) as u8 == (v2 & 0xff) as u8 && ((v1 >> 8) & 0xff) as u8 == ((v2
                    >> 8) & 0xff) as u8 && ((v1 >> 16) & 0xff) as u8 == ((v2 >> 16) & 0xff) as u8
                    && ((v1 >> 24) & 0xff) as u8 == ((v2 >> 24) & 0xff) as u8 ==> v1 == v2)
                    by (bit_vector);
                assert(false);
            }
        },
    }
}

/// Relies on sp_io::hashing::blake2_128: the 128-bit Blake2b digest of the
/// input bytes, a pure function of those bytes, used here as the one-way
/// digest behind the randomness adapter.
#[verifier::external_body]
fn blake2_128_digest(data: &Vec<u8>) -> (r: [u8; 16])
    ensures
        r@ == blake2_128_of(data@),
{
    sp_io::hashing::blake2_128(data.as_slice())
}

/// Build the adapter's hashing payload from the host-supplied entropy seed,
/// the caller identity and the call-sequence number.
fn build_payload(seed: &Vec<u8>, sender: u64, extrinsic_index: Option<u32>) -> (r: Vec<u8>)
    ensures
        r@ == random_payload(seed@, sender, extrinsic_index),
{
    let mut payload: Vec<u8> = Vec::new();
    let mut i: usize = 0;
    while i < seed.len()
        invariant
            i <= seed.len(),
            payload@ == seed@.subrange(0, i as int),
        decreases seed.len() - i,
    {
        payload.push(seed[i]);
        i = i + 1;
    }
    proof {
        assert(payload@ =~= seed@);
    }
    payload.push((sender & 0xff) as u8);
    payload.push(((sender >> 8) & 0xff) as u8);
    payload.push(((sender >> 16) & 0xff) as u8);
    payload.push(((sender >> 24) & 0xff) as u8);
    payload.push(((sender >> 32) & 0xff) as u8);
    payload.push(((sender >> 40) & 0xff) as u8);
    payload.push(((sender >> 48) & 0xff) as u8);
    payload.push(((sender >> 56) & 0xff) as u8);
    match extrinsic_index {
        None => {
            payload.push(0u8);
        },
        Some(v) => {
            payload.push(1u8);
            payload.push((v & 0xff) as u8);
            payload.push(((v >> 8) & 0xff) as u8);
            payload.push(((v >> 16) & 0xff) as u8);
            payload.push(((v >> 24) & 0xff) as u8);
        },
    }
    proof {
        assert(payload@ =~= random_payload(seed@, sender, extrinsic_index));
    }
    payload
}

/// Derive a fresh 128-bit pseudorandom value from the host's entropy seed,
/// the caller identity and the call-sequence number.
///
/// Distinct sequence numbers within one batch give distinct payloads, but the
/// result is only as unpredictable as the seed: a host that lets the seed be
/// known ahead of the call makes the value predictable. That weakness is the
/// host's and is kept, not repaired, here.
pub fn random_value(sender: u64, seed: &Vec<u8>, extrinsic_index: Option<u32>) -> (r: [u8; 16])
    ensures
        r@ == blake2_128_of(random_payload(seed@, sender, extrinsic_index)),
{
    let payload = build_payload(seed, sender, extrinsic_index);
    blake2_128_digest(&payload)
}

} // verus!
