//! A genome: a fixed-length ordered sequence of genes plus a unique
//! identifier drawn from the allocator at construction.

use vstd::prelude::*;

use crate::allocator::IdAllocator;
use crate::definitions::{GENOME_MUTATION_RATE, GENOME_MUTATION_TRIES, GENOME_SIZE};
use crate::gene::{is_one_bit_flip, Gene};

verus! {

/// A genome: a unique identifier and exactly `GENOME_SIZE` genes, in a
/// meaningful storage order.
#[derive(Clone, Debug)]
pub struct Genome {
    /// Unique identifier, assigned once at construction.
    pub id: u32,
    /// The ordered gene sequence; always exactly `GENOME_SIZE` long.
    pub adn: Vec<Gene>,
}

impl Genome {
    /// The genome holds exactly `GENOME_SIZE` genes, every one well formed.
    pub open spec fn wf(self) -> bool {
        &&& self.adn@.len() == GENOME_SIZE
        &&& forall|i: int| 0 <= i < self.adn@.len() ==> (#[trigger] self.adn@[i]).wf()
    }

    /// Builds a genome with a fresh identifier from the allocator and
    /// `GENOME_SIZE` randomly generated genes, in order.
    pub fn new_random(alloc: &mut IdAllocator) -> (r: Genome)
        requires
            old(alloc).count < u32::MAX,
        ensures
            r.wf(),
            r.id == old(alloc).count,
            final(alloc).count == old(alloc).count + 1,
    {
        let genome_id: u32 = alloc.draw_counter();
        let mut adn: Vec<Gene> = Vec::new();
        for _idx in 0..GENOME_SIZE
            invariant
                adn@.len() == _idx,
                forall|i: int| 0 <= i < adn@.len() ==> (#[trigger] adn@[i]).wf(),
        {
            let gene: Gene = Gene::new_random();
            adn.push(gene);
        }
        Genome { id: genome_id, adn }
    }

    /// Mutates every gene in storage order with the given odds: each gene
    /// independently either keeps its exact value or has one bit of its
    /// packed value flipped. Odds of 0 leave the whole sequence unchanged;
    /// odds of `GENOME_MUTATION_TRIES` or more change every gene.
    pub fn mutate_on_odds(&mut self, odds: u16)
        requires
            old(self).wf(),
        ensures
            final(self).wf(),
            final(self).id == old(self).id,
            final(self).adn@.len() == old(self).adn@.len(),
            forall|i: int|
                0 <= i < old(self).adn@.len() ==> (#[trigger] final(self).adn@[i] == old(
                    self,
                ).adn@[i] || is_one_bit_flip(old(self).adn@[i].value, final(self).adn@[i].value)),
            odds == 0 ==> final(self).adn@ == old(self).adn@,
            odds >= GENOME_MUTATION_TRIES ==> forall|i: int|
                0 <= i < old(self).adn@.len() ==> is_one_bit_flip(
                    old(self).adn@[i].value,
                    (#[trigger] final(self).adn@[i]).value,
                ) && final(self).adn@[i].value != old(self).adn@[i].value,
    {
        let n: usize = self.adn.len();
        for idx in 0..n
            invariant
                n == old(self).adn@.len(),
                self.adn@.len() == n,
                self.id == old(self).id,
                old(self).wf(),
                forall|j: int|
                    0 <= j < idx ==> (#[trigger] self.adn@[j] == old(self).adn@[j]
                        || is_one_bit_flip(old(self).adn@[j].value, self.adn@[j].value)),
                forall|j: int| 0 <= j < idx ==> (#[trigger] self.adn@[j]).wf(),
                forall|j: int|
                    0 <= j < idx && odds == 0 ==> #[trigger] self.adn@[j] == old(self).adn@[j],
                forall|j: int|
                    0 <= j < idx && odds >= GENOME_MUTATION_TRIES ==> is_one_bit_flip(
                        old(self).adn@[j].value,
                        (#[trigger] self.adn@[j]).value,
                    ) && self.adn@[j].value != old(self).adn@[j].value,
                forall|j: int| idx <= j < n ==> #[trigger] self.adn@[j] == old(self).adn@[j],
        {
            let mut gene: Gene = self.adn[idx];
            gene.mutate_on_odds(odds);
            self.adn[idx] = gene;
        }
        proof {
            if odds == 0 {
                assert(self.adn@ =~= old(self).adn@);
            }
        }
    }

    /// Mutates every gene in storage order with the fixed default odds of
    /// `GENOME_MUTATION_RATE` per `GENOME_MUTATION_TRIES`.
    pub fn mutate_random(&mut self)
        requires
            old(self).wf(),
        ensures
            final(self).wf(),
            final(self).id == old(self).id,
            final(self).adn@.len() == old(self).adn@.len(),
            forall|i: int|
                0 <= i < old(self).adn@.len() ==> (#[trigger] final(self).adn@[i] == old(
                    self,
                ).adn@[i] || is_one_bit_flip(old(self).adn@[i].value, final(self).adn@[i].value)),
    {
        self.mutate_on_odds(GENOME_MUTATION_RATE);
    }

    /// Mutates every gene in storage order unconditionally: each gene's
    /// packed value has exactly one bit flipped, so every one changes.
    pub fn mutate_deterministic(&mut self)
        requires
            old(self).wf(),
        ensures
            final(self).wf(),
            final(self).id == old(self).id,
            final(self).adn@.len() == old(self).adn@.len(),
            forall|i: int|
                0 <= i < old(self).adn@.len() ==> is_one_bit_flip(
                    old(self).adn@[i].value,
                    (#[trigger] final(self).adn@[i]).value,
                ) && final(self).adn@[i].value != old(self).adn@[i].value,
    {
        let n: usize = self.adn.len();
        for idx in 0..n
            invariant
                n == old(self).adn@.len(),
                self.adn@.len() == n,
                self.id == old(self).id,
                old(self).wf(),
                forall|j: int| 0 <= j < idx ==> (#[trigger] self.adn@[j]).wf(),
                forall|j: int|
                    0 <= j < idx ==> is_one_bit_flip(
                        old(self).adn@[j].value,
                        (#[trigger] self.adn@[j]).value,
                    ) && self.adn@[j].value != old(self).adn@[j].value,
                forall|j: int| idx <= j < n ==> #[trigger] self.adn@[j] == old(self).adn@[j],
        {
            let mut gene: Gene = self.adn[idx];
            gene.mutate_deterministic();
            self.adn[idx] = gene;
        }
    }
}

} // verus!
