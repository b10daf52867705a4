//! Evolvable genomes for an agent-based simulation: genes packed as 32-bit
//! records, random generation, probabilistic single-bit mutation, and a
//! counter that hands out process-unique genome identifiers.

pub mod allocator;
pub mod codec;
pub mod definitions;
pub mod gene;
pub mod genome;
pub mod rng;
