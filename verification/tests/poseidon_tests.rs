use goldilocks_poseidon::goldilocks::{GoldilocksField, ORDER};
use goldilocks_poseidon::constants::{FAST_PARTIAL_ROUND_CONSTANTS, N_PARTIAL_ROUNDS};
use goldilocks_poseidon::poseidon::{
    calculate_arbitrary_poseidon, calculate_poseidon, mds_partial_layer_fast_field,
    mds_partial_layer_init, partial_first_constant_layer, partial_rounds_reference,
    poseidon_u64, poseidon_u64_bytes, poseidon_u64_bytes_for_bytes, poseidon_u64_for_bytes,
    sbox_monomial,
};

#[test]
fn test_poseidon_u64() {
    let inputs = [1, 2, 3, 4, 5, 6, 7, 8, 9, 10, 11, 12, 13, 14];
    let hash = poseidon_u64(&inputs);
    assert_eq!(
        hash,
        [
            3619294218193778203,
            11297464610014100521,
            916593713866203210,
            11797937562375563491
        ]
    )
}

#[test]
fn test_poseidon_bytes() {
    let bytes = [
        0u8, 1, 2, 3, 4, 5, 6, 7, 8, 9, 10, 11, 12, 13, 14, 15, 16, 17, 18, 19, 20, 21, 22, 23,
        24, 25, 26, 27, 28, 29, 30, 31,
    ];
    let hash = poseidon_u64_bytes_for_bytes(&bytes);
    assert_eq!(
        hash,
        [
            85, 160, 96, 159, 172, 88, 72, 90, 174, 246, 73, 172, 217, 75, 152, 86, 110, 234,
            34, 143, 235, 106, 165, 129, 158, 75, 134, 226, 30, 7, 236, 120
        ]
    )
}

#[test]
fn test_digest_words_match_digest_bytes() {
    let inputs = [5u64, 77, 123456789, ORDER - 1];
    let words = poseidon_u64(&inputs);
    let bytes = poseidon_u64_for_bytes(&inputs);
    for (i, w) in words.iter().enumerate() {
        assert_eq!(&bytes[8 * i..8 * i + 8], &w.to_be_bytes());
    }
}

#[test]
fn test_bytes_hash_matches_word_hash() {
    let bytes = [
        0u8, 0, 0, 0, 0, 0, 1, 7, 255, 255, 255, 254, 0, 0, 0, 0,
    ];
    let words = [0x107u64, 0xFFFF_FFFE_0000_0000];
    assert_eq!(poseidon_u64_bytes(&bytes), poseidon_u64(&words));
}

#[test]
fn test_ring_axioms_on_values() {
    let a = GoldilocksField(0xFFFF_FFFF_FFFF_FFFF);
    let b = GoldilocksField(ORDER - 1);
    let c = GoldilocksField(1234567890123456789);
    assert_eq!(a.add(b.add(c)), a.add(b).add(c));
    assert_eq!(a.add(GoldilocksField(0)), a);
    assert_eq!(a.add(a.neg()), GoldilocksField(0));
    assert_eq!(a.mul(b.mul(c)), a.mul(b).mul(c));
    assert_eq!(a.mul(GoldilocksField(1)), a);
    assert_eq!(a.mul(b.add(c)), a.mul(b).add(a.mul(c)));
    assert_eq!(a.square(), a.mul(a));
}

#[test]
fn test_canonical_round_trip() {
    for n in [0u64, 1, 2, 0xFFFF_FFFF, ORDER - 1] {
        assert_eq!(GoldilocksField::from_canonical_u64(n).to_canonical_u64(), n);
    }
    let x = GoldilocksField::from_noncanonical_u64(ORDER + 5);
    let once = x.to_canonical_u64();
    let twice = GoldilocksField::from_noncanonical_u64(once).to_canonical_u64();
    assert_eq!(once, 5);
    assert_eq!(once, twice);
}

#[test]
fn test_reduction_matches_wide_arithmetic() {
    let pairs = [
        (0xFFFF_FFFF_0000_0000u64, 0x1234_5678_9ABC_DEF0u64),
        (ORDER - 1, ORDER - 1),
        (0xDEAD_BEEF_CAFE_F00Du64, 0x0123_4567_89AB_CDEFu64),
        (1, ORDER - 2),
    ];
    for (a, b) in pairs {
        let prod = GoldilocksField(a).mul(GoldilocksField(b)).to_canonical_u64();
        let expected_prod = ((a as u128 * b as u128) % ORDER as u128) as u64;
        assert_eq!(prod, expected_prod);

        let sum = GoldilocksField(a).add(GoldilocksField(b)).to_canonical_u64();
        let expected_sum = ((a as u128 + b as u128) % ORDER as u128) as u64;
        assert_eq!(sum, expected_sum);

        let diff = GoldilocksField(a).sub(GoldilocksField(b)).to_canonical_u64();
        let expected_diff =
            ((a as u128 + ORDER as u128 - (b % ORDER) as u128) % ORDER as u128) as u64;
        assert_eq!(diff, expected_diff);
    }
}

#[test]
fn test_permutation_deterministic_and_zero_state() {
    let zero_state = [GoldilocksField(0); 12];
    let once = calculate_poseidon(zero_state);
    let again = calculate_poseidon(zero_state);
    for i in 0..12 {
        assert_eq!(once[i].0, again[i].0);
    }
    // An empty input performs exactly one permutation of the all-zero state.
    let empty_digest = poseidon_u64(&[]);
    for i in 0..4 {
        assert_eq!(empty_digest[i], once[i].0);
    }
}

#[test]
fn test_sponge_chunk_boundary_carryover() {
    // Nine inputs: one full chunk of 8, then a short final chunk of 1 whose
    // unfilled lanes must carry over from the first permutation's output.
    let inputs: Vec<u64> = (1..=9).collect();
    let fields: Vec<GoldilocksField> = inputs.iter().map(|&n| GoldilocksField(n)).collect();

    let mut state = [GoldilocksField(0); 12];
    for i in 0..8 {
        state[i] = fields[i];
    }
    state = calculate_poseidon(state);
    state[0] = fields[8];
    state = calculate_poseidon(state);

    let digest = calculate_arbitrary_poseidon(&fields);
    for i in 0..4 {
        assert_eq!(digest[i].0, state[i].0);
    }
}

#[test]
fn test_sponge_exact_multiple_of_rate() {
    // Sixteen inputs: exactly two chunks, no short final chunk.
    let fields: Vec<GoldilocksField> = (1..=16).map(GoldilocksField).collect();

    let mut state = [GoldilocksField(0); 12];
    for i in 0..8 {
        state[i] = fields[i];
    }
    state = calculate_poseidon(state);
    for i in 0..8 {
        state[i] = fields[8 + i];
    }
    state = calculate_poseidon(state);

    let digest = calculate_arbitrary_poseidon(&fields);
    for i in 0..4 {
        assert_eq!(digest[i].0, state[i].0);
    }
}

#[test]
fn test_equality_ignores_representation() {
    let canonical = GoldilocksField(3);
    let noncanonical = GoldilocksField(ORDER.wrapping_add(3));
    assert_eq!(canonical, noncanonical);
    assert_ne!(canonical, GoldilocksField(4));
}

fn fast_partial_round_block(mut state: [GoldilocksField; 12]) -> [GoldilocksField; 12] {
    partial_first_constant_layer(&mut state);
    state = mds_partial_layer_init(&state);
    for r in 0..N_PARTIAL_ROUNDS - 1 {
        state[0] = sbox_monomial(state[0]);
        state[0] = state[0].add(GoldilocksField(FAST_PARTIAL_ROUND_CONSTANTS[r]));
        state = mds_partial_layer_fast_field(&state, r);
    }
    state[0] = sbox_monomial(state[0]);
    mds_partial_layer_fast_field(&state, N_PARTIAL_ROUNDS - 1)
}

#[test]
fn test_fast_partial_rounds_match_reference_form() {
    // The O(12)-per-round decomposition must compute the same field elements
    // as the reference partial rounds built from the full circulant-plus-
    // diagonal MDS multiply with the standard round constants.
    let states: [[u64; 12]; 4] = [
        [0; 12],
        [1, 2, 3, 4, 5, 6, 7, 8, 9, 10, 11, 12],
        [
            u64::MAX,
            ORDER,
            ORDER - 1,
            0xDEAD_BEEF_CAFE_F00D,
            0x0123_4567_89AB_CDEF,
            42,
            0,
            0xFFFF_FFFF,
            0x1_0000_0000,
            7,
            1753635133440165772,
            0x8000_0000_0000_0000,
        ],
        [ORDER - 1; 12],
    ];
    for words in states {
        let mut state = [GoldilocksField(0); 12];
        for i in 0..12 {
            state[i] = GoldilocksField(words[i]);
        }
        let fast = fast_partial_round_block(state);
        let reference = partial_rounds_reference(state);
        for i in 0..12 {
            assert_eq!(fast[i].to_canonical_u64(), reference[i].to_canonical_u64());
        }
    }
}
