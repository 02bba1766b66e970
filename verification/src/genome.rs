//! Genomes and the genetic crossover engine.
//!
//! A genome is a fixed 16-byte payload. Breeding combines two parent genomes
//! under a 128-bit selector mask: each result bit is drawn from the first
//! parent where the selector bit is one, from the second parent where it is
//! zero. The combination is a pure function of its three inputs.

use vstd::prelude::*;

verus! {

/// One collectible asset's genetic payload: 16 opaque bytes, immutable once
/// created.
#[derive(Clone, Copy, PartialEq, Eq, Debug)]
pub struct Kitty(pub [u8; 16]);

/// Bit `j` of byte `x` (bit 0 is the least significant).
pub open spec fn bit_of(x: u8, j: u8) -> bool {
    ((x >> j) & 1) == 1
}

/// One byte of the crossover: each bit comes from `a` where the selector bit
/// is one, from `b` where it is zero.
pub open spec fn combine_byte(a: u8, b: u8, s: u8) -> u8 {
    (a & s) | (b & !s)
}

/// The whole child genome, byte by byte.
pub open spec fn combine_genomes(a: Seq<u8>, b: Seq<u8>, s: Seq<u8>) -> Seq<u8> {
    Seq::new(a.len(), |i: int| combine_byte(a[i], b[i], s[i]))
}

/// The byte formula is a bitwise multiplexer: for every bit position, the
/// combined bit equals `a`'s bit where `s`'s bit is one, else `b`'s bit.
pub proof fn lemma_combine_byte_is_mux(a: u8, b: u8, s: u8, j: u8)
    requires
        j < 8,
    ensures
        bit_of(combine_byte(a, b, s), j) == if bit_of(s, j) {
            bit_of(a, j)
        } else {
            bit_of(b, j)
        },
{
    assert(j < 8 ==> ((((a & s) | (b & !s)) >> j) & 1 == 1) == (if ((s >> j) & 1 == 1) {
        (a >> j) & 1 == 1
    } else {
        (b >> j) & 1 == 1
    })) by (bit_vector);
}

fn combine_byte_exec(a: u8, b: u8, s: u8) -> (r: u8)
    ensures
        r == combine_byte(a, b, s),
{
    (a & s) | (b & !s)
}

/// Combine two parent genomes into a child genome under a selector mask.
///
/// Deterministic in its three inputs; every bit of the child is the
/// corresponding bit of `k1` where the selector bit is one, of `k2` where it
/// is zero.
pub fn combine(k1: &Kitty, k2: &Kitty, selector: &[u8; 16]) -> (r: Kitty)
    ensures
        r.0@ == combine_genomes(k1.0@, k2.0@, selector@),
        forall|i: int, j: u8|
            0 <= i < 16 && j < 8 ==> #[trigger] bit_of(r.0@[i], j) == if bit_of(selector@[i], j) {
                bit_of(k1.0@[i], j)
            } else {
                bit_of(k2.0@[i], j)
            },
{
    let d0 = combine_byte_exec(k1.0[0], k2.0[0], selector[0]);
    let d1 = combine_byte_exec(k1.0[1], k2.0[1], selector[1]);
    let d2 = combine_byte_exec(k1.0[2], k2.0[2], selector[2]);
    let d3 = combine_byte_exec(k1.0[3], k2.0[3], selector[3]);
    let d4 = combine_byte_exec(k1.0[4], k2.0[4], selector[4]);
    let d5 = combine_byte_exec(k1.0[5], k2.0[5], selector[5]);
    let d6 = combine_byte_exec(k1.0[6], k2.0[6], selector[6]);
    let d7 = combine_byte_exec(k1.0[7], k2.0[7], selector[7]);
    let d8 = combine_byte_exec(k1.0[8], k2.0[8], selector[8]);
    let d9 = combine_byte_exec(k1.0[9], k2.0[9], selector[9]);
    let d10 = combine_byte_exec(k1.0[10], k2.0[10], selector[10]);
    let d11 = combine_byte_exec(k1.0[11], k2.0[11], selector[11]);
    let d12 = combine_byte_exec(k1.0[12], k2.0[12], selector[12]);
    let d13 = combine_byte_exec(k1.0[13], k2.0[13], selector[13]);
    let d14 = combine_byte_exec(k1.0[14], k2.0[14], selector[14]);
    let d15 = combine_byte_exec(k1.0[15], k2.0[15], selector[15]);
    let r = Kitty(
        [d0, d1, d2, d3, d4, d5, d6, d7, d8, d9, d10, d11, d12, d13, d14, d15],
    );
    proof {
        assert(r.0@ =~= combine_genomes(k1.0@, k2.0@, selector@));
        assert forall|i: int, j: u8| 0 <= i < 16 && j < 8 implies #[trigger] bit_of(
            r.0@[i],
            j,
        ) == if bit_of(selector@[i], j) {
            bit_of(k1.0@[i], j)
        } else {
            bit_of(k2.0@[i], j)
        } by {
            lemma_combine_byte_is_mux(k1.0@[i], k2.0@[i], selector@[i], j);
        }
    }
    r
}

} // verus!
