use vstd::prelude::*;

verus! {

/// Mask of the source-neuron byte (most significant) in a packed gene value.
pub const SOURCE_ID_BITMASK: u32 = 0xFF00_0000;

/// Mask of the weight byte in a packed gene value.
pub const SOURCE_W_BITMASK: u32 = 0x00FF_0000;

/// Mask of the bias byte in a packed gene value.
pub const SOURCE_B_BITMASK: u32 = 0x0000_FF00;

/// Mask of the sink-neuron byte (least significant) in a packed gene value.
pub const SINK_ID_BITMASK: u32 = 0x0000_00FF;

/// Number of genes every genome holds.
pub const GENOME_SIZE: usize = 16;

/// Size of the lottery a mutation draw is made from.
pub const GENOME_MUTATION_TRIES: u16 = 1000;

/// Default odds of a mutation, as a count per `GENOME_MUTATION_TRIES`.
pub const GENOME_MUTATION_RATE: u16 = 1;

} // verus!
