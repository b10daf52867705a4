use genomes::allocator::IdAllocator;
use genomes::codec::{pack, split_into_fields, unpack};
use genomes::definitions::{
    GENOME_SIZE, SINK_ID_BITMASK, SOURCE_B_BITMASK, SOURCE_ID_BITMASK, SOURCE_W_BITMASK,
};
use genomes::gene::Gene;
use genomes::genome::Genome;

#[test]
fn test_gene_new_from_bytes() {
    let gene_a: Gene = Gene::new_from_bytes([0b11111111, 0b01111110, 0b11100111, 0b00000001]);
    let gene_a_copy: Gene = Gene::new_from_bytes([0b11111111, 0b01111110, 0b11100111, 0b00000001]);
    let gene_b: Gene = Gene::new_from_bytes([0b11111111, 0b01111110, 0b11100111, 0b10000001]);
    assert_eq!(gene_a, gene_a_copy);
    assert_ne!(gene_a, gene_b);
}

#[test]
fn test_gene_new_random() {
    let gene_a: Gene = Gene::new_random();
    let gene_b: Gene = Gene::new_random();
    assert_ne!(gene_a, gene_b);
}

#[test]
fn test_gene_rebuild() {
    let mut gene_a: Gene = Gene::new_random();
    let gene_b: Gene = gene_a.clone();
    gene_a.value += 1;
    gene_a.rebuild();
    assert_ne!(gene_a, gene_b);
    assert_eq!(gene_a, gene_a);
}

#[test]
fn test_gene_transmute_unpacking() {
    let mut gene_a: Gene = Gene::new_random();
    let gene_b: Gene = gene_a.clone();
    gene_a.rebuild();
    assert_eq!(gene_a.source, gene_b.source);
    assert_eq!(gene_a.weight, gene_b.weight);
    assert_eq!(gene_a.bias, gene_b.bias);
    assert_eq!(gene_a.sink, gene_b.sink);
}

#[test]
fn test_gene_mutate_on_odds_always() {
    let mut gene_a: Gene = Gene::new_random();
    let gene_b: Gene = gene_a.clone();
    gene_a.mutate_on_odds(1000);
    assert_ne!(gene_a, gene_b);
    assert_eq!(gene_a, gene_a);
}

#[test]
fn test_gene_mutate_on_odds_never() {
    let mut gene_a: Gene = Gene::new_random();
    let gene_b: Gene = gene_a.clone();
    gene_a.mutate_on_odds(0);
    assert_eq!(gene_a, gene_b);
    assert_eq!(gene_a, gene_a);
}

#[test]
fn test_gene_to_bytes() {
    let gene: Gene = Gene::new_from_bytes([0b11111111, 0b01111110, 0b11100111, 0b00000001]);
    let bytes: [u8; 4] = gene.to_bytes();
    assert_eq!(0b11111111, bytes[0]);
    assert_eq!(0b01111110, bytes[1]);
    assert_eq!(0b11100111, bytes[2]);
    assert_eq!(0b00000001, bytes[3]);
}

#[test]
fn test_gene_mutate_deterministic() {
    let mut gene_a: Gene = Gene::new_random();
    let gene_b: Gene = gene_a.clone();
    gene_a.mutate_deterministic();
    assert_ne!(gene_a, gene_b);
    assert_eq!(gene_a, gene_a);
}

#[test]
fn test_genome_mutate_deterministic() {
    let mut alloc = IdAllocator::new();
    let mut genome_a: Genome = Genome::new_random(&mut alloc);
    let genome_b: Genome = genome_a.clone();
    genome_a.mutate_deterministic();
    assert_ne!(genome_a.adn, genome_b.adn);
}

#[test]
fn test_genome_mutate_on_odds_always() {
    let mut alloc = IdAllocator::new();
    let mut genome_a: Genome = Genome::new_random(&mut alloc);
    let genome_b: Genome = genome_a.clone();
    genome_a.mutate_on_odds(1000);
    assert_ne!(genome_a.adn, genome_b.adn);
}

#[test]
fn test_genome_mutate_on_odds_never() {
    let mut alloc = IdAllocator::new();
    let mut genome_a: Genome = Genome::new_random(&mut alloc);
    let genome_b: Genome = genome_a.clone();
    genome_a.mutate_on_odds(0);
    assert_eq!(genome_a.adn, genome_b.adn);
}

#[test]
fn test_pack_example_value() {
    assert_eq!(pack([0xAF, 0xA9, 0xBE, 0xEC]), 0xAFA9BEEC);
}

#[test]
fn test_unpack_example_value() {
    assert_eq!(unpack(1234567890), [0x49, 0x96, 0x02, 0xD2]);
}

#[test]
fn test_pack_unpack_round_trip() {
    let tuples: [[u8; 4]; 4] = [[0, 0, 0, 0], [255, 255, 255, 255], [1, 2, 3, 4], [0xAF, 0xA9, 0xBE, 0xEC]];
    for fields in tuples {
        assert_eq!(unpack(pack(fields)), fields);
    }
    let values: [u32; 4] = [0, u32::MAX, 0xAFA9BEEC, 1234567890];
    for value in values {
        assert_eq!(pack(unpack(value)), value);
    }
}

#[test]
fn test_split_into_fields_agrees_with_unpack() {
    let masks: [u32; 4] = [
        SOURCE_ID_BITMASK,
        SOURCE_W_BITMASK,
        SOURCE_B_BITMASK,
        SINK_ID_BITMASK,
    ];
    for value in [0u32, u32::MAX, 0xAFA9BEEC, 1234567890] {
        assert_eq!(split_into_fields(value, masks), unpack(value));
    }
}

#[test]
fn test_gene_invariant_after_construction() {
    let gene: Gene = Gene::new_from_bytes([0xAF, 0xA9, 0xBE, 0xEC]);
    assert_eq!(gene.value, 0xAFA9BEEC);
    assert_eq!(gene.source, 0xAF);
    assert_eq!(gene.weight, 0xA9);
    assert_eq!(gene.bias, 0xBE);
    assert_eq!(gene.sink, 0xEC);
    let random_gene: Gene = Gene::new_random();
    assert_eq!(
        random_gene.value,
        pack([random_gene.source, random_gene.weight, random_gene.bias, random_gene.sink])
    );
}

#[test]
fn test_gene_mutate_deterministic_hamming_distance_one() {
    let mut gene_a: Gene = Gene::new_from_bytes([0xAF, 0xA9, 0xBE, 0xEC]);
    let gene_b: Gene = gene_a.clone();
    gene_a.mutate_deterministic();
    let difference: u32 = gene_a.value ^ gene_b.value;
    assert_ne!(difference, 0);
    assert_eq!(difference & (difference - 1), 0);
    assert_eq!(gene_a.to_bytes(), unpack(gene_a.value));
}

#[test]
fn test_gene_mutate_on_odds_never_repeated() {
    let mut gene_a: Gene = Gene::new_from_bytes([7, 77, 177, 217]);
    let gene_b: Gene = gene_a.clone();
    for _ in 0..100 {
        gene_a.mutate_on_odds(0);
    }
    assert_eq!(gene_a, gene_b);
    assert_eq!(gene_a.to_bytes(), gene_b.to_bytes());
}

#[test]
fn test_allocator_sequence() {
    let mut alloc = IdAllocator::new();
    assert_eq!(alloc.get_counter(), 0);
    for expected in 0u32..10 {
        assert_eq!(alloc.draw_counter(), expected);
    }
    assert_eq!(alloc.get_counter(), 10);
    alloc.bump_counter();
    assert_eq!(alloc.get_counter(), 11);
}

#[test]
fn test_genome_fresh_has_sixteen_genes_and_unique_id() {
    let mut alloc = IdAllocator::new();
    let genome_a: Genome = Genome::new_random(&mut alloc);
    let genome_b: Genome = Genome::new_random(&mut alloc);
    assert_eq!(genome_a.adn.len(), GENOME_SIZE);
    assert_eq!(genome_b.adn.len(), GENOME_SIZE);
    assert_ne!(genome_a.id, genome_b.id);
    for gene in genome_a.adn.iter() {
        assert_eq!(gene.value, pack([gene.source, gene.weight, gene.bias, gene.sink]));
    }
}

#[test]
fn test_genome_mutate_deterministic_changes_every_gene() {
    let mut alloc = IdAllocator::new();
    let mut genome_a: Genome = Genome::new_random(&mut alloc);
    let genome_b: Genome = genome_a.clone();
    genome_a.mutate_deterministic();
    assert_eq!(genome_a.adn.len(), GENOME_SIZE);
    for idx in 0..GENOME_SIZE {
        assert_ne!(genome_a.adn[idx].value, genome_b.adn[idx].value);
    }
}

#[test]
fn test_genome_mutate_on_rate_zero_changes_no_gene() {
    let mut alloc = IdAllocator::new();
    let mut genome_a: Genome = Genome::new_random(&mut alloc);
    let genome_b: Genome = genome_a.clone();
    genome_a.mutate_on_odds(0);
    for idx in 0..GENOME_SIZE {
        assert_eq!(genome_a.adn[idx].value, genome_b.adn[idx].value);
    }
}

#[test]
fn test_genome_mutate_random_keeps_id_and_length() {
    let mut alloc = IdAllocator::new();
    let mut genome: Genome = Genome::new_random(&mut alloc);
    let id_before: u32 = genome.id;
    genome.mutate_random();
    assert_eq!(genome.id, id_before);
    assert_eq!(genome.adn.len(), GENOME_SIZE);
}
