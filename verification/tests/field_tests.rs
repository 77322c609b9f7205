use goldilocks_poseidon::field::{Field, Field64, Square};
use goldilocks_poseidon::goldilocks::{GoldilocksField, ORDER};

#[test]
fn test_field_constants_and_predicates() {
    assert_eq!(GoldilocksField::order_u64(), 0xFFFF_FFFF_0000_0001);
    assert!(GoldilocksField::zero().is_zero());
    assert!(GoldilocksField::one().is_one());
    assert!(GoldilocksField::two().is_nonzero());
    assert_eq!(GoldilocksField::neg_one(), GoldilocksField::one().neg());
    assert_eq!(GoldilocksField::two_adicity(), 32);
    assert_eq!(GoldilocksField::bits(), 64);
    assert_eq!(GoldilocksField::order(), GoldilocksField::characteristic());
    assert_eq!(GoldilocksField::order(), num::BigUint::from(ORDER));
    assert_eq!(GoldilocksField::coset_shift(), GoldilocksField(7));
}

#[test]
fn test_derived_operations() {
    let x = GoldilocksField::from_canonical_u64(11);
    assert_eq!(x.double(), GoldilocksField(22));
    assert_eq!(x.cube(), GoldilocksField(1331));
    assert_eq!(x.triple(), GoldilocksField(33));
    assert_eq!(Square::square(&x), GoldilocksField(121));
    assert_eq!(x.add_one(), GoldilocksField(12));
    assert_eq!(x.sub_one(), GoldilocksField(10));
    assert_eq!(x.add_canonical_u64(5), GoldilocksField(16));
    assert_eq!(x.sub_canonical_u64(5), GoldilocksField(6));
    let acc = x.multiply_accumulate(GoldilocksField(3), GoldilocksField(4));
    assert_eq!(acc, GoldilocksField(23));
}

#[test]
fn test_exp_power_of_2_and_roots_of_unity() {
    let three = GoldilocksField::from_canonical_u64(3);
    assert_eq!(three.exp_power_of_2(2), GoldilocksField(81));
    assert_eq!(three.exp_power_of_2(0), three);

    // The subgroup generator has order exactly 2^32, so the root of order
    // 2^0 is one, and the root of order 2^1 is minus one.
    let root_of_order_one = GoldilocksField::primitive_root_of_unity(0);
    assert!(root_of_order_one.is_one());
    let root_of_order_two = GoldilocksField::primitive_root_of_unity(1);
    assert_eq!(root_of_order_two, GoldilocksField::neg_one());

    // A root of order 2^32 is the subgroup generator itself.
    let full_root = GoldilocksField::primitive_root_of_unity(32);
    assert_eq!(full_root, GoldilocksField(1753635133440165772));
}

#[test]
fn test_noncanonical_construction() {
    let x = GoldilocksField::from_noncanonical_u64(u64::MAX);
    assert_eq!(x.to_canonical_u64(), u64::MAX - ORDER);
    let y = GoldilocksField::from_noncanonical_u64(ORDER);
    assert!(y.is_zero());
}
