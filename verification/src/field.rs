use vstd::prelude::*;
use vstd::arithmetic::div_mod::{
    lemma_small_mod, lemma_mul_mod_noop_left, lemma_mul_mod_noop_right, lemma_add_mod_noop_right,
};
use num::BigUint;
use crate::goldilocks::{GoldilocksField, ORDER, canon_of, mul_raw, lemma_canon_is_mod};

verus! {

#[verifier::external_type_specification]
#[verifier::external_body]
pub struct ExBigUint(BigUint);

/// Relies on num::BigUint::from::<u64>: builds the arbitrary-precision integer
/// with the given value. Used only to report the field order as metadata.
#[verifier::external_body]
fn biguint_from_u64(n: u64) -> BigUint {
    BigUint::from(n)
}

/// The result of squaring `k` times, each square reduced modulo `m`.
pub open spec fn pow_sq(v: int, k: nat, m: int) -> int
    decreases k,
{
    if k == 0 {
        v % m
    } else {
        let p = pow_sq(v, (k - 1) as nat, m);
        (p * p) % m
    }
}

/// Squaring, as its own capability.
pub trait Square: Sized {
    fn square(&self) -> Self;
}

/// A finite field element: arithmetic, distinguished constants, generators,
/// and derived operations expressible in terms of the required ones. The
/// contracts speak of each element's canonical value `val()`, a residue in
/// `[0, modulus())`.
pub trait Field: Sized + Copy + Square {
    /// The field order.
    spec fn modulus() -> int;

    /// The canonical value this element stands for.
    spec fn val(self) -> int;

    /// The 2-adicity of the multiplicative group: the largest `k` with
    /// `2^k` dividing `modulus() - 1`.
    spec fn two_adicity_spec() -> nat;

    /// The canonical value of the full multiplicative group's generator.
    spec fn generator_val() -> int;

    /// The canonical value of the generator of the subgroup of order
    /// `2^two_adicity_spec()`.
    spec fn power_of_two_generator_val() -> int;

    proof fn modulus_exceeds_two()
        ensures
            Self::modulus() > 2,
    ;

    proof fn val_in_range(self)
        ensures
            0 <= self.val() < Self::modulus(),
    ;

    /// The additive identity.
    fn zero() -> (r: Self)
        ensures
            r.val() == 0,
    ;

    /// The multiplicative identity.
    fn one() -> (r: Self)
        ensures
            r.val() == 1,
    ;

    /// The integer two as a field constant.
    fn two() -> (r: Self)
        ensures
            r.val() == 2,
    ;

    /// The integer minus one as a field constant.
    fn neg_one() -> (r: Self)
        ensures
            r.val() == Self::modulus() - 1,
    ;

    /// The 2-adicity of the multiplicative group.
    fn two_adicity() -> (r: usize)
        ensures
            r as nat == Self::two_adicity_spec(),
    ;

    /// The 2-adicity of the characteristic's multiplicative group.
    fn characteristic_two_adicity() -> (r: usize)
        ensures
            r as nat == Self::two_adicity_spec(),
    ;

    /// A generator of the entire multiplicative group.
    fn multiplicative_group_generator() -> (r: Self)
        ensures
            r.val() == Self::generator_val(),
    ;

    /// A generator of the multiplicative subgroup of order
    /// `2^two_adicity_spec()`.
    fn power_of_two_generator() -> (r: Self)
        ensures
            r.val() == Self::power_of_two_generator_val(),
    ;

    /// The bit length of the field order.
    spec fn bits_spec() -> nat;

    /// The bit length of the field order.
    fn bits() -> (r: usize)
        ensures
            r as nat == Self::bits_spec(),
    ;

    /// The field order, as an arbitrary-precision integer (metadata only).
    fn order() -> BigUint;

    /// The field characteristic, as an arbitrary-precision integer
    /// (metadata only).
    fn characteristic() -> BigUint;

    /// Builds the element with canonical value `n`; `n` must already be
    /// canonical.
    fn from_canonical_u64(n: u64) -> (r: Self)
        requires
            n < Self::modulus(),
        ensures
            r.val() == n,
    ;

    /// Whether two elements are the same field element.
    fn equals(&self, other: &Self) -> (r: bool)
        ensures
            r == (self.val() == other.val()),
    ;

    /// Field addition.
    fn add(self, rhs: Self) -> (r: Self)
        ensures
            r.val() == (self.val() + rhs.val()) % Self::modulus(),
    ;

    /// Field subtraction.
    fn sub(self, rhs: Self) -> (r: Self)
        ensures
            r.val() == (self.val() - rhs.val()) % Self::modulus(),
    ;

    /// Field multiplication.
    fn mul(self, rhs: Self) -> (r: Self)
        ensures
            r.val() == (self.val() * rhs.val()) % Self::modulus(),
    ;

    /// Field negation.
    fn neg(self) -> (r: Self)
        ensures
            r.val() == (0 - self.val()) % Self::modulus(),
    ;

    /// Whether this is the additive identity.
    fn is_zero(&self) -> (r: bool)
        ensures
            r == (self.val() == 0),
    {
        self.equals(&Self::zero())
    }

    /// Whether this is not the additive identity.
    fn is_nonzero(&self) -> (r: bool)
        ensures
            r == (self.val() != 0),
    {
        !self.equals(&Self::zero())
    }

    /// Whether this is the multiplicative identity.
    fn is_one(&self) -> (r: bool)
        ensures
            r == (self.val() == 1),
    {
        self.equals(&Self::one())
    }

    /// Twice this element.
    fn double(&self) -> (r: Self)
        ensures
            r.val() == (self.val() + self.val()) % Self::modulus(),
    {
        (*self).add(*self)
    }

    /// The cube of this element.
    fn cube(&self) -> (r: Self)
        ensures
            r.val() == (self.val() * self.val() * self.val()) % Self::modulus(),
    {
        let sq = (*self).mul(*self);
        let r = sq.mul(*self);
        proof {
            Self::modulus_exceeds_two();
            lemma_mul_mod_noop_left(self.val() * self.val(), self.val(), Self::modulus());
        }
        r
    }

    /// Three times this element.
    fn triple(&self) -> (r: Self)
        ensures
            r.val() == (self.val() * 3) % Self::modulus(),
    {
        let three = Self::one().add(Self::two());
        let r = (*self).mul(three);
        proof {
            Self::modulus_exceeds_two();
            lemma_mul_mod_noop_right(self.val(), 3, Self::modulus());
        }
        r
    }

    /// `self + x * y`, possibly cheaper than the two separate operations.
    fn multiply_accumulate(&self, x: Self, y: Self) -> (r: Self)
        ensures
            r.val() == (self.val() + x.val() * y.val()) % Self::modulus(),
    {
        let r = (*self).add(x.mul(y));
        proof {
            Self::modulus_exceeds_two();
            lemma_add_mod_noop_right(self.val(), x.val() * y.val(), Self::modulus());
        }
        r
    }

    /// Raises this element to the exponent `2^power_log`, by repeated
    /// squaring.
    fn exp_power_of_2(&self, power_log: usize) -> (r: Self)
        ensures
            r.val() == pow_sq(self.val(), power_log as nat, Self::modulus()),
    {
        let mut res = *self;
        proof {
            Self::modulus_exceeds_two();
            self.val_in_range();
            lemma_small_mod(self.val() as nat, Self::modulus() as nat);
        }
        for i in 0..power_log
            invariant
                res.val() == pow_sq(self.val(), i as nat, Self::modulus()),
        {
            res = res.mul(res);
        }
        res
    }

    /// A primitive root of unity of order `2^n_log`; the requested order must
    /// not exceed the subgroup's 2-adicity.
    fn primitive_root_of_unity(n_log: usize) -> (r: Self)
        requires
            n_log as nat <= Self::two_adicity_spec(),
        ensures
            r.val() == pow_sq(
                Self::power_of_two_generator_val(),
                (Self::two_adicity_spec() - n_log) as nat,
                Self::modulus(),
            ),
    {
        let base = Self::power_of_two_generator();
        base.exp_power_of_2(Self::two_adicity() - n_log)
    }

    /// The representative of the coset used for low-degree extensions.
    fn coset_shift() -> (r: Self)
        ensures
            r.val() == Self::generator_val(),
    {
        Self::multiplicative_group_generator()
    }
}

/// A field whose order fits in 64 bits: conversions to and from canonical
/// 64-bit integers, and fast paths for adding or subtracting an integer that
/// the caller guarantees to be canonical.
pub trait Field64: Field {
    /// The field order as a 64-bit integer.
    fn order_u64() -> (r: u64)
        ensures
            r as int == Self::modulus(),
    ;

    /// The canonical value of this element.
    fn to_canonical_u64(&self) -> (r: u64)
        ensures
            r as int == self.val(),
    ;

    /// Builds the element standing for `n` modulo the field order; `n` need
    /// not be canonical.
    fn from_noncanonical_u64(n: u64) -> (r: Self)
        ensures
            r.val() == (n as int) % Self::modulus(),
    ;

    /// `self + rhs` for a caller-guaranteed canonical `rhs`.
    fn add_canonical_u64(&self, rhs: u64) -> (r: Self)
        requires
            rhs < Self::modulus(),
        ensures
            r.val() == (self.val() + rhs) % Self::modulus(),
    {
        (*self).add(Self::from_canonical_u64(rhs))
    }

    /// `self - rhs` for a caller-guaranteed canonical `rhs`.
    fn sub_canonical_u64(&self, rhs: u64) -> (r: Self)
        requires
            rhs < Self::modulus(),
        ensures
            r.val() == (self.val() - rhs) % Self::modulus(),
    {
        (*self).sub(Self::from_canonical_u64(rhs))
    }

    /// This element plus one.
    fn add_one(&self) -> (r: Self)
        ensures
            r.val() == (self.val() + 1) % Self::modulus(),
    {
        proof {
            Self::modulus_exceeds_two();
        }
        self.add_canonical_u64(1)
    }

    /// This element minus one.
    fn sub_one(&self) -> (r: Self)
        ensures
            r.val() == (self.val() - 1) % Self::modulus(),
    {
        proof {
            Self::modulus_exceeds_two();
        }
        self.sub_canonical_u64(1)
    }
}

impl Square for GoldilocksField {
    fn square(&self) -> (r: Self)
        ensures
            r.0 == mul_raw(self.0, self.0),
    {
        GoldilocksField::square(*self)
    }
}

impl Field for GoldilocksField {
    open spec fn modulus() -> int {
        ORDER as int
    }

    open spec fn val(self) -> int {
        canon_of(self.0) as int
    }

    open spec fn two_adicity_spec() -> nat {
        32
    }

    open spec fn generator_val() -> int {
        7
    }

    open spec fn power_of_two_generator_val() -> int {
        1753635133440165772
    }

    open spec fn bits_spec() -> nat {
        64
    }

    proof fn modulus_exceeds_two() {
    }

    proof fn val_in_range(self) {
        lemma_canon_is_mod(self.0);
    }

    fn zero() -> (r: Self) {
        GoldilocksField(0)
    }

    fn one() -> (r: Self) {
        GoldilocksField(1)
    }

    fn two() -> (r: Self) {
        GoldilocksField(2)
    }

    fn neg_one() -> (r: Self) {
        GoldilocksField(ORDER - 1)
    }

    fn two_adicity() -> (r: usize) {
        32
    }

    fn characteristic_two_adicity() -> (r: usize) {
        32
    }

    fn multiplicative_group_generator() -> (r: Self) {
        GoldilocksField(7)
    }

    fn power_of_two_generator() -> (r: Self) {
        GoldilocksField(1753635133440165772)
    }

    fn bits() -> (r: usize) {
        64
    }

    fn order() -> BigUint {
        biguint_from_u64(ORDER)
    }

    fn characteristic() -> BigUint {
        Self::order()
    }

    fn from_canonical_u64(n: u64) -> (r: Self) {
        GoldilocksField::from_canonical_u64(n)
    }

    fn equals(&self, other: &Self) -> (r: bool) {
        GoldilocksField::to_canonical_u64(self) == GoldilocksField::to_canonical_u64(other)
    }

    fn add(self, rhs: Self) -> (r: Self) {
        GoldilocksField::add(self, rhs)
    }

    fn sub(self, rhs: Self) -> (r: Self) {
        GoldilocksField::sub(self, rhs)
    }

    fn mul(self, rhs: Self) -> (r: Self) {
        GoldilocksField::mul(self, rhs)
    }

    fn neg(self) -> (r: Self) {
        GoldilocksField::neg(self)
    }
}

impl Field64 for GoldilocksField {
    fn order_u64() -> (r: u64) {
        ORDER
    }

    fn to_canonical_u64(&self) -> (r: u64) {
        GoldilocksField::to_canonical_u64(self)
    }

    fn from_noncanonical_u64(n: u64) -> (r: Self) {
        let r = GoldilocksField::from_noncanonical_u64(n);
        proof {
            lemma_canon_is_mod(n);
        }
        r
    }
}

} // verus!
