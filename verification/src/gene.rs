//! A single gene: four byte fields plus their cached packed 32-bit value.
//!
//! The invariant every operation keeps: the packed value is exactly the
//! big-endian concatenation of the four fields, so the two representations
//! never diverge. Equality of genes is equality of packed values.

use vstd::prelude::*;

use crate::codec::{pack, spec_byte0, spec_byte1, spec_byte2, spec_byte3, spec_pack, unpack};
use crate::definitions::{GENOME_MUTATION_RATE, GENOME_MUTATION_TRIES};
use crate::rng::random_below;
use vstd::std_specs::cmp::PartialEqSpec;

verus! {

/// `b` is `a` with exactly one of its 32 bits flipped (Hamming distance 1).
pub open spec fn is_one_bit_flip(a: u32, b: u32) -> bool {
    exists|i: u32| i < 32 && b == a ^ (1u32 << i)
}

/// Flipping one bit always changes the value: a value at Hamming distance 1
/// from `a` is never `a` itself.
pub proof fn lemma_one_bit_flip_changes(a: u32, b: u32)
    requires
        is_one_bit_flip(a, b),
    ensures
        a != b,
{
    let i = choose|i: u32| i < 32 && b == a ^ (1u32 << i);
    assert(a ^ (1u32 << i) != a) by (bit_vector)
        requires
            i < 32u32,
    ;
}

/// A gene: a source neuron id, a weight, a bias and a sink neuron id, with
/// the packed value that concatenates them (source most significant).
#[derive(Clone, Copy, Debug)]
pub struct Gene {
    /// Source neuron id (most significant byte of `value`).
    pub source: u8,
    /// Source neuron weight.
    pub weight: u8,
    /// Source neuron bias.
    pub bias: u8,
    /// Sink (destination) neuron id (least significant byte of `value`).
    pub sink: u8,
    /// The packed form of the four fields.
    pub value: u32,
}

impl Gene {
    /// The packed value agrees with the four byte fields.
    pub open spec fn wf(self) -> bool {
        self.value == spec_pack(self.source, self.weight, self.bias, self.sink)
    }

    /// Builds a gene from its four bytes; the packed value is derived from
    /// them, so the result is well formed.
    pub fn new_from_bytes(bytes: [u8; 4]) -> (r: Gene)
        ensures
            r.source == bytes[0],
            r.weight == bytes[1],
            r.bias == bytes[2],
            r.sink == bytes[3],
            r.value == spec_pack(bytes[0], bytes[1], bytes[2], bytes[3]),
            r.wf(),
    {
        let value: u32 = pack(bytes);
        Gene { source: bytes[0], weight: bytes[1], bias: bytes[2], sink: bytes[3], value }
    }

    /// Builds a gene from four independently drawn uniform random bytes.
    pub fn new_random() -> (r: Gene)
        ensures
            r.wf(),
    {
        let b0: u8 = random_below(256) as u8;
        let b1: u8 = random_below(256) as u8;
        let b2: u8 = random_below(256) as u8;
        let b3: u8 = random_below(256) as u8;
        Gene::new_from_bytes([b0, b1, b2, b3])
    }

    /// Re-derives the four byte fields from the packed value, restoring the
    /// well-formedness invariant after a direct change of `value`.
    pub fn rebuild(&mut self)
        ensures
            final(self).value == old(self).value,
            final(self).wf(),
    {
        let bytes: [u8; 4] = unpack(self.value);
        self.source = bytes[0];
        self.weight = bytes[1];
        self.bias = bytes[2];
        self.sink = bytes[3];
    }

    /// The four byte fields, in packing order.
    pub fn to_bytes(&self) -> (r: [u8; 4])
        ensures
            r[0] == self.source,
            r[1] == self.weight,
            r[2] == self.bias,
            r[3] == self.sink,
    {
        [self.source, self.weight, self.bias, self.sink]
    }

    /// Mutates the gene with the given odds, counted per
    /// `GENOME_MUTATION_TRIES` draws: a uniform draw below `odds` flips
    /// exactly one uniformly chosen bit of the packed value and re-derives
    /// the fields; any other draw leaves the gene untouched. Odds of 0 never
    /// mutate; odds of `GENOME_MUTATION_TRIES` or more always do.
    pub fn mutate_on_odds(&mut self, odds: u16)
        requires
            old(self).wf(),
        ensures
            final(self).wf(),
            *final(self) == *old(self) || is_one_bit_flip(old(self).value, final(self).value),
            odds == 0 ==> *final(self) == *old(self),
            odds >= GENOME_MUTATION_TRIES ==> is_one_bit_flip(old(self).value, final(self).value)
                && final(self).value != old(self).value,
    {
        let draw: u32 = random_below(GENOME_MUTATION_TRIES as u32);
        if draw < odds as u32 {
            self.flip_random_bit();
        }
    }

    /// Mutates the gene with the fixed default odds of
    /// `GENOME_MUTATION_RATE` per `GENOME_MUTATION_TRIES`.
    pub fn mutate_random(&mut self)
        requires
            old(self).wf(),
        ensures
            final(self).wf(),
            *final(self) == *old(self) || is_one_bit_flip(old(self).value, final(self).value),
    {
        self.mutate_on_odds(GENOME_MUTATION_RATE);
    }

    /// Unconditionally flips exactly one uniformly chosen bit of the packed
    /// value, so the packed value always changes, and re-derives the fields.
    pub fn mutate_deterministic(&mut self)
        requires
            old(self).wf(),
        ensures
            final(self).wf(),
            is_one_bit_flip(old(self).value, final(self).value),
            final(self).value != old(self).value,
    {
        self.flip_random_bit();
    }

    /// Flips one uniformly chosen bit of the packed value and re-derives the
    /// four fields from the result.
    fn flip_random_bit(&mut self)
        requires
            old(self).wf(),
        ensures
            final(self).wf(),
            is_one_bit_flip(old(self).value, final(self).value),
            final(self).value != old(self).value,
    {
        let bit: u32 = random_below(32);
        self.value = self.value ^ (1u32 << bit);
        self.rebuild();
        proof {
            assert(is_one_bit_flip(old(self).value, self.value)) by {
                assert(bit < 32 && self.value == old(self).value ^ (1u32 << bit));
            }
            lemma_one_bit_flip_changes(old(self).value, self.value);
        }
    }
}

/// Gene equality goes by the packed value, and for well-formed genes that is
/// the same as agreeing on all four byte fields: genes built from identical
/// byte tuples are equal, and a difference in any byte makes them unequal.
pub proof fn lemma_gene_equality_by_bytes(a: Gene, b: Gene)
    requires
        a.wf(),
        b.wf(),
    ensures
        a.eq_spec(&b) <==> (a.source == b.source && a.weight == b.weight && a.bias == b.bias
            && a.sink == b.sink),
{
    crate::codec::lemma_pack_injective(
        a.source,
        a.weight,
        a.bias,
        a.sink,
        b.source,
        b.weight,
        b.bias,
        b.sink,
    );
}

impl PartialEq for Gene {
    /// Two genes are equal exactly when their packed values agree.
    fn eq(&self, other: &Gene) -> (r: bool) {
        self.value == other.value
    }
}

impl vstd::std_specs::cmp::PartialEqSpecImpl for Gene {
    open spec fn obeys_eq_spec() -> bool {
        true
    }

    open spec fn eq_spec(&self, other: &Gene) -> bool {
        self.value == other.value
    }
}

} // verus!
