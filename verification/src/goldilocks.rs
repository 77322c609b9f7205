use vstd::prelude::*;
use vstd::arithmetic::div_mod::{
    lemma_small_mod, lemma_mod_bound, lemma_mod_multiples_vanish, lemma_mod_sub_multiples_vanish,
    lemma_add_mod_noop, lemma_sub_mod_noop, lemma_mul_mod_noop_left, lemma_mul_mod_noop_right,
    lemma_fundamental_div_mod,
};
use vstd::arithmetic::div_mod::{lemma_add_mod_noop_right, lemma_mod_self_0};
use vstd::arithmetic::mul::{
    lemma_mul_upper_bound, lemma_mul_is_associative, lemma_mul_is_distributive_add,
};

verus! {

/// The Goldilocks prime `p = 2^64 - 2^32 + 1`.
pub const ORDER: u64 = 0xFFFF_FFFF_0000_0001;

/// `2^64 - p = 2^32 - 1`, the residue of `2^64` modulo `p`.
pub const EPSILON: u64 = 0xFFFF_FFFF;

/// An element of the Goldilocks field, stored as a possibly non-canonical
/// 64-bit word: the stored value may lie anywhere in `[0, 2^64)`, and stands
/// for its residue class modulo `ORDER`. Canonicalization to `[0, ORDER)`
/// happens only on demand.
#[derive(Clone, Copy, Debug)]
pub struct GoldilocksField(pub u64);

/// The canonical representative of the residue class of a stored word:
/// one conditional subtraction always suffices, since `2^64 - ORDER < ORDER`.
pub open spec fn canon_of(x: u64) -> u64 {
    if x >= ORDER {
        (x - ORDER) as u64
    } else {
        x
    }
}

/// The word returned by field addition on stored words `a` and `b`:
/// the 64-bit wrapping sum, adjusted by `+EPSILON` for each 64-bit
/// wraparound (at most two can occur).
#[verifier::opaque]
pub open spec fn add_raw(a: u64, b: u64) -> u64 {
    let s: int = a + b;
    if s <= u64::MAX {
        s as u64
    } else {
        let s1: int = s - 0x1_0000_0000_0000_0000 + EPSILON;
        if s1 <= u64::MAX {
            s1 as u64
        } else {
            (s1 - 0x1_0000_0000_0000_0000 + EPSILON) as u64
        }
    }
}

/// The word returned by field subtraction on stored words `a` and `b`:
/// the 64-bit wrapping difference, adjusted by `-EPSILON` for each 64-bit
/// borrow (at most two can occur).
#[verifier::opaque]
pub open spec fn sub_raw(a: u64, b: u64) -> u64 {
    let d: int = a - b;
    if d >= 0 {
        d as u64
    } else {
        let d1: int = d + 0x1_0000_0000_0000_0000 - EPSILON;
        if d1 >= 0 {
            d1 as u64
        } else {
            (d1 + 0x1_0000_0000_0000_0000 - EPSILON) as u64
        }
    }
}

/// The word returned by reducing a 128-bit product `x`: with
/// `x = x_hi * 2^64 + x_lo` and `x_hi = x_hi_hi * 2^32 + x_hi_lo`, the result
/// is `x_lo - x_hi_hi + EPSILON * x_hi_lo`, with a `-EPSILON` fix-up when the
/// subtraction borrows and a `+EPSILON` fix-up when the final sum overflows.
#[verifier::opaque]
pub open spec fn reduce128_raw(x: int) -> u64 {
    let x_lo: int = x % 0x1_0000_0000_0000_0000;
    let x_hi: int = x / 0x1_0000_0000_0000_0000;
    let x_hi_hi: int = x_hi / 0x1_0000_0000;
    let x_hi_lo: int = x_hi % 0x1_0000_0000;
    let t0: int = if x_lo >= x_hi_hi {
        x_lo - x_hi_hi
    } else {
        x_lo - x_hi_hi + 0x1_0000_0000_0000_0000 - EPSILON
    };
    let t1: int = x_hi_lo * EPSILON;
    if t0 + t1 <= u64::MAX {
        (t0 + t1) as u64
    } else {
        (t0 + t1 - 0x1_0000_0000_0000_0000 + EPSILON) as u64
    }
}

/// The word returned by field multiplication on stored words `a` and `b`.
#[verifier::opaque]
pub open spec fn mul_raw(a: u64, b: u64) -> u64 {
    reduce128_raw(a * b)
}

/// The word returned by field negation on stored word `a`.
#[verifier::opaque]
pub open spec fn neg_raw(a: u64) -> u64 {
    if canon_of(a) == 0 {
        0u64
    } else {
        (ORDER - canon_of(a)) as u64
    }
}

impl GoldilocksField {
    /// The canonical value this element stands for, in `[0, ORDER)`.
    pub open spec fn val(self) -> int {
        canon_of(self.0) as int
    }
}

/// Canonicalization computes the residue modulo `ORDER`.
pub proof fn lemma_canon_is_mod(x: u64)
    ensures
        canon_of(x) < ORDER,
        canon_of(x) as int == (x as int) % (ORDER as int),
{
    let p: int = ORDER as int;
    if x >= ORDER {
        lemma_mod_sub_multiples_vanish(x as int, p);
        assert((-p + x) % p == (x as int) % p);
        lemma_small_mod((x - ORDER) as nat, ORDER as nat);
    } else {
        lemma_small_mod(x as nat, ORDER as nat);
    }
}

/// The addition word is congruent to the integer sum modulo `ORDER`.
pub proof fn lemma_add_raw_mod(a: u64, b: u64)
    ensures
        (add_raw(a, b) as int) % (ORDER as int) == (a + b) % (ORDER as int),
{
    reveal(add_raw);

    let p: int = ORDER as int;
    let s: int = a + b;
    if s <= u64::MAX {
    } else {
        let s1: int = s - 0x1_0000_0000_0000_0000 + EPSILON;
        assert(s1 == s - p);
        lemma_mod_sub_multiples_vanish(s, p);
        if s1 <= u64::MAX {
        } else {
            lemma_mod_sub_multiples_vanish(s1, p);
        }
    }
}

/// The subtraction word is congruent to the integer difference modulo `ORDER`.
pub proof fn lemma_sub_raw_mod(a: u64, b: u64)
    ensures
        (sub_raw(a, b) as int) % (ORDER as int) == (a - b) % (ORDER as int),
{
    reveal(sub_raw);

    let p: int = ORDER as int;
    let d: int = a - b;
    if d >= 0 {
    } else {
        let d1: int = d + 0x1_0000_0000_0000_0000 - EPSILON;
        assert(d1 == d + p);
        vstd::arithmetic::div_mod::lemma_mod_add_multiples_vanish(d, p);
        if d1 >= 0 {
        } else {
            vstd::arithmetic::div_mod::lemma_mod_add_multiples_vanish(d1, p);
        }
    }
}

/// The reduction word is congruent to the 128-bit input modulo `ORDER`.
pub proof fn lemma_reduce128_mod(x: int)
    requires
        0 <= x < 0x1_0000_0000_0000_0000_0000_0000_0000_0000,
    ensures
        (reduce128_raw(x) as int) % (ORDER as int) == x % (ORDER as int),
{
    reveal(reduce128_raw);

    let p: int = ORDER as int;
    let b64: int = 0x1_0000_0000_0000_0000;
    let b32: int = 0x1_0000_0000;
    let x_lo: int = x % b64;
    let x_hi: int = x / b64;
    let x_hi_hi: int = x_hi / b32;
    let x_hi_lo: int = x_hi % b32;
    lemma_fundamental_div_mod(x, b64);
    lemma_fundamental_div_mod(x_hi, b32);
    lemma_mod_bound(x, b64);
    lemma_mod_bound(x_hi, b32);
    assert(0 <= x_hi < b64) by {
        vstd::arithmetic::div_mod::lemma_div_pos_is_pos(x, b64);
        vstd::arithmetic::div_mod::lemma_multiply_divide_lt(x, b64, b64);
    }
    assert(0 <= x_hi_hi < b32) by {
        vstd::arithmetic::div_mod::lemma_div_pos_is_pos(x_hi, b32);
        vstd::arithmetic::div_mod::lemma_multiply_divide_lt(x_hi, b32, b32);
    }
    // The algebraic identity behind the reduction: replace 2^64 by EPSILON and
    // 2^96 by -1 modulo p.
    let reduced: int = x_lo - x_hi_hi + x_hi_lo * (EPSILON as int);
    let k: int = x_hi_hi * (b32 + 1) + x_hi_lo;
    assert(x == reduced + k * p) by (nonlinear_arith)
        requires
            x == b64 * x_hi + x_lo,
            x_hi == b32 * x_hi_hi + x_hi_lo,
            reduced == x_lo - x_hi_hi + x_hi_lo * (EPSILON as int),
            k == x_hi_hi * (b32 + 1) + x_hi_lo,
            p == 0xFFFF_FFFF_0000_0001,
            b64 == 0x1_0000_0000_0000_0000,
            b32 == 0x1_0000_0000,
            EPSILON == 0xFFFF_FFFFu64,
    ;
    let t0: int = if x_lo >= x_hi_hi {
        x_lo - x_hi_hi
    } else {
        x_lo - x_hi_hi + b64 - EPSILON
    };
    let t1: int = x_hi_lo * (EPSILON as int);
    assert(t1 <= (b32 - 1) * (EPSILON as int)) by {
        lemma_mul_upper_bound(x_hi_lo, b32 - 1, EPSILON as int, EPSILON as int);
    }
    assert(t1 >= 0) by (nonlinear_arith)
        requires
            x_hi_lo >= 0,
            t1 == x_hi_lo * (EPSILON as int),
    ;
    let r: int = if t0 + t1 <= u64::MAX {
        t0 + t1
    } else {
        t0 + t1 - b64 + EPSILON
    };
    assert(r == reduce128_raw(x) as int);
    // r differs from reduced by a multiple of p, hence from x as well.
    let j: int = (if x_lo >= x_hi_hi { 0int } else { 1int }) - (if t0 + t1 <= u64::MAX {
        0int
    } else {
        1int
    });
    assert(r == reduced + j * p);
    assert(r == p * (j - k) + x) by (nonlinear_arith)
        requires
            x == reduced + k * p,
            r == reduced + j * p,
    ;
    lemma_mod_multiples_vanish(j - k, x, p);
}

/// The multiplication word is congruent to the integer product modulo `ORDER`.
pub proof fn lemma_mul_raw_mod(a: u64, b: u64)
    ensures
        (mul_raw(a, b) as int) % (ORDER as int) == (a as int * b as int) % (ORDER as int),
{
    reveal(mul_raw);

    assert(0 <= a as int * b as int <= (u64::MAX as int) * (u64::MAX as int)) by {
        lemma_mul_upper_bound(a as int, u64::MAX as int, b as int, u64::MAX as int);
        assert(a as int * b as int >= 0) by (nonlinear_arith)
            requires
                a >= 0,
                b >= 0,
        ;
    }
    lemma_reduce128_mod(a as int * b as int);
}

/// The negation word is congruent to the negated value modulo `ORDER`.
pub proof fn lemma_neg_raw_mod(a: u64)
    ensures
        (neg_raw(a) as int) % (ORDER as int) == (0 - a as int) % (ORDER as int),
{
    reveal(neg_raw);

    let p: int = ORDER as int;
    lemma_canon_is_mod(a);
    let r: int = canon_of(a) as int;
    let q: int = a as int / p;
    lemma_fundamental_div_mod(a as int, p);
    if r == 0 {
        lemma_mod_multiples_vanish(-q, 0, p);
        lemma_small_mod(0nat, ORDER as nat);
    } else {
        assert(0 - a as int == p * (-q - 1) + (p - r));
        lemma_mod_multiples_vanish(-q - 1, p - r, p);
        lemma_small_mod((p - r) as nat, ORDER as nat);
    }
}

impl GoldilocksField {
    /// Builds the element with canonical value `n`; the argument must already
    /// be canonical.
    pub fn from_canonical_u64(n: u64) -> (r: Self)
        requires
            n < ORDER,
        ensures
            r.0 == n,
            r.val() == n,
    {
        proof {
            lemma_canon_is_mod(n);
        }
        GoldilocksField(n)
    }

    /// Builds the element whose stored word is `n`, reducing nothing.
    pub fn from_noncanonical_u64(n: u64) -> (r: Self)
        ensures
            r.0 == n,
    {
        GoldilocksField(n)
    }

    /// The canonical value of this element; one conditional subtraction
    /// suffices because the stored word is below `2 * ORDER`.
    pub fn to_canonical_u64(&self) -> (r: u64)
        ensures
            r == canon_of(self.0),
            r == self.val(),
            r < ORDER,
    {
        let mut c: u64 = self.0;
        if c >= ORDER {
            c = c - ORDER;
        }
        c
    }

    /// Field addition on possibly non-canonical words.
    pub fn add(self, rhs: Self) -> (r: Self)
        ensures
            r.0 == add_raw(self.0, rhs.0),
            r.val() == (self.val() + rhs.val()) % (ORDER as int),
    {
        let sum0: u64 = self.0.wrapping_add(rhs.0);
        let r: u64 = if sum0 < self.0 {
            // The sum wrapped past 2^64; compensate by adding EPSILON.
            let sum1: u64 = sum0.wrapping_add(EPSILON);
            if sum1 < sum0 {
                // A second wrap is possible only when both operands were
                // already non-canonical; the final addition cannot overflow.
                sum1 + EPSILON
            } else {
                sum1
            }
        } else {
            sum0
        };
        proof {
            reveal(add_raw);
            lemma_add_congruence(self.0, rhs.0);
        }
        GoldilocksField(r)
    }

    /// Field subtraction on possibly non-canonical words.
    pub fn sub(self, rhs: Self) -> (r: Self)
        ensures
            r.0 == sub_raw(self.0, rhs.0),
            r.val() == (self.val() - rhs.val()) % (ORDER as int),
    {
        let diff0: u64 = self.0.wrapping_sub(rhs.0);
        let r: u64 = if rhs.0 > self.0 {
            // The difference borrowed from 2^64; compensate by subtracting
            // EPSILON.
            let diff1: u64 = diff0.wrapping_sub(EPSILON);
            if diff0 < EPSILON {
                // A second borrow is possible only from non-canonical
                // operands; the final subtraction cannot underflow.
                diff1 - EPSILON
            } else {
                diff1
            }
        } else {
            diff0
        };
        proof {
            reveal(sub_raw);
            lemma_sub_congruence(self.0, rhs.0);
        }
        GoldilocksField(r)
    }

    /// Field multiplication: a 128-bit product followed by the reduction.
    pub fn mul(self, rhs: Self) -> (r: Self)
        ensures
            r.0 == mul_raw(self.0, rhs.0),
            r.val() == (self.val() * rhs.val()) % (ORDER as int),
    {
        proof {
            lemma_mul_upper_bound(self.0 as int, u64::MAX as int, rhs.0 as int, u64::MAX as int);
        }
        let prod: u128 = (self.0 as u128) * (rhs.0 as u128);
        let r: GoldilocksField = reduce128(prod);
        proof {
            reveal(mul_raw);
            lemma_mul_congruence(self.0, rhs.0);
        }
        r
    }

    /// Field squaring, as a self-multiplication.
    pub fn square(self) -> (r: Self)
        ensures
            r.0 == mul_raw(self.0, self.0),
            r.val() == (self.val() * self.val()) % (ORDER as int),
    {
        self.mul(self)
    }

    /// Field negation: zero stays zero, anything else maps to
    /// `ORDER - canonical(self)`.
    pub fn neg(self) -> (r: Self)
        ensures
            r.0 == neg_raw(self.0),
            r.val() == (0 - self.val()) % (ORDER as int),
    {
        let c: u64 = self.to_canonical_u64();
        let r: GoldilocksField = if c == 0 {
            GoldilocksField(0)
        } else {
            GoldilocksField(ORDER - c)
        };
        proof {
            reveal(neg_raw);
            lemma_neg_congruence(self.0);
        }
        r
    }
}

/// Addition of canonical values commutes with canonicalizing the raw word.
pub proof fn lemma_add_congruence(a: u64, b: u64)
    ensures
        canon_of(add_raw(a, b)) as int == (canon_of(a) as int + canon_of(b) as int) % (ORDER as int),
{
    let p: int = ORDER as int;
    lemma_canon_is_mod(a);
    lemma_canon_is_mod(b);
    lemma_canon_is_mod(add_raw(a, b));
    lemma_add_raw_mod(a, b);
    lemma_add_mod_noop(a as int, b as int, p);
}

/// Subtraction of canonical values commutes with canonicalizing the raw word.
pub proof fn lemma_sub_congruence(a: u64, b: u64)
    ensures
        canon_of(sub_raw(a, b)) as int == (canon_of(a) as int - canon_of(b) as int) % (ORDER as int),
{
    let p: int = ORDER as int;
    lemma_canon_is_mod(a);
    lemma_canon_is_mod(b);
    lemma_canon_is_mod(sub_raw(a, b));
    lemma_sub_raw_mod(a, b);
    lemma_sub_mod_noop(a as int, b as int, p);
}

/// Multiplication of canonical values commutes with canonicalizing the raw word.
pub proof fn lemma_mul_congruence(a: u64, b: u64)
    ensures
        canon_of(mul_raw(a, b)) as int == (canon_of(a) as int * canon_of(b) as int) % (ORDER as int),
{
    let p: int = ORDER as int;
    lemma_canon_is_mod(a);
    lemma_canon_is_mod(b);
    lemma_canon_is_mod(mul_raw(a, b));
    lemma_mul_raw_mod(a, b);
    lemma_mul_mod_noop_left(a as int, b as int, p);
    lemma_mul_mod_noop_right(a as int % p, b as int, p);
}

/// Negation of the canonical value commutes with canonicalizing the raw word.
pub proof fn lemma_neg_congruence(a: u64)
    ensures
        canon_of(neg_raw(a)) as int == (0 - canon_of(a) as int) % (ORDER as int),
{
    let p: int = ORDER as int;
    lemma_canon_is_mod(a);
    lemma_canon_is_mod(neg_raw(a));
    lemma_neg_raw_mod(a);
    // (0 - a) % p == (0 - (a % p)) % p
    lemma_sub_mod_noop(0, a as int, p);
    lemma_small_mod(0nat, ORDER as nat);
}

impl PartialEq for GoldilocksField {
    /// Equality compares canonical values, never raw stored words.
    fn eq(&self, other: &Self) -> (r: bool) {
        self.to_canonical_u64() == other.to_canonical_u64()
    }
}

impl vstd::std_specs::cmp::PartialEqSpecImpl for GoldilocksField {
    open spec fn obeys_eq_spec() -> bool {
        true
    }

    open spec fn eq_spec(&self, other: &Self) -> bool {
        self.val() == other.val()
    }
}

impl Eq for GoldilocksField {}

impl Default for GoldilocksField {
    /// The default element is the additive identity.
    fn default() -> (r: Self)
        ensures
            r.0 == 0,
    {
        GoldilocksField(0)
    }
}

/// Law: addition is associative, under field equality (equality of canonical
/// values), for arbitrary stored words.
pub proof fn lemma_add_associative(a: u64, b: u64, c: u64)
    ensures
        canon_of(add_raw(a, add_raw(b, c))) == canon_of(add_raw(add_raw(a, b), c)),
{
    let p: int = ORDER as int;
    let ca: int = canon_of(a) as int;
    let cb: int = canon_of(b) as int;
    let cc: int = canon_of(c) as int;
    lemma_canon_is_mod(a);
    lemma_canon_is_mod(b);
    lemma_canon_is_mod(c);
    lemma_small_mod(ca as nat, ORDER as nat);
    lemma_small_mod(cc as nat, ORDER as nat);
    lemma_add_congruence(b, c);
    lemma_add_congruence(a, add_raw(b, c));
    lemma_add_congruence(a, b);
    lemma_add_congruence(add_raw(a, b), c);
    lemma_add_mod_noop_right(ca, cb + cc, p);
    lemma_add_mod_noop(ca + cb, cc, p);
    lemma_small_mod(canon_of(add_raw(a, b)) as nat, ORDER as nat);
}

/// Law: zero is the additive identity.
pub proof fn lemma_add_identity(a: u64)
    ensures
        canon_of(add_raw(a, 0)) == canon_of(a),
{
    reveal(add_raw);

}

/// Law: every element plus its negation is zero.
pub proof fn lemma_add_inverse(a: u64)
    ensures
        canon_of(add_raw(a, neg_raw(a))) == 0,
{
    reveal(neg_raw);

    let p: int = ORDER as int;
    let ca: int = canon_of(a) as int;
    lemma_canon_is_mod(a);
    lemma_add_congruence(a, neg_raw(a));
    if ca == 0 {
        lemma_small_mod(0nat, ORDER as nat);
    } else {
        assert(canon_of(neg_raw(a)) == ORDER - ca);
        lemma_mod_self_0(p);
    }
}

/// Law: multiplication is associative, under field equality, for arbitrary
/// stored words.
pub proof fn lemma_mul_associative(a: u64, b: u64, c: u64)
    ensures
        canon_of(mul_raw(a, mul_raw(b, c))) == canon_of(mul_raw(mul_raw(a, b), c)),
{
    let p: int = ORDER as int;
    let ca: int = canon_of(a) as int;
    let cb: int = canon_of(b) as int;
    let cc: int = canon_of(c) as int;
    lemma_mul_congruence(b, c);
    lemma_mul_congruence(a, mul_raw(b, c));
    lemma_mul_congruence(a, b);
    lemma_mul_congruence(mul_raw(a, b), c);
    lemma_mul_mod_noop_right(ca, cb * cc, p);
    lemma_mul_mod_noop_left(ca * cb, cc, p);
    lemma_mul_is_associative(ca, cb, cc);
}

/// Law: one is the multiplicative identity.
pub proof fn lemma_mul_identity(a: u64)
    ensures
        canon_of(mul_raw(a, 1)) == canon_of(a),
{
    let p: int = ORDER as int;
    let ca: int = canon_of(a) as int;
    lemma_canon_is_mod(a);
    lemma_mul_congruence(a, 1);
    assert(canon_of(1u64) == 1);
    assert(ca * (canon_of(1u64) as int) == ca) by (nonlinear_arith)
        requires
            canon_of(1u64) == 1,
    ;
    lemma_small_mod(ca as nat, ORDER as nat);
}

/// Law: multiplication distributes over addition, under field equality, for
/// arbitrary stored words.
pub proof fn lemma_mul_distributive(a: u64, b: u64, c: u64)
    ensures
        canon_of(mul_raw(a, add_raw(b, c))) == canon_of(add_raw(mul_raw(a, b), mul_raw(a, c))),
{
    let p: int = ORDER as int;
    let ca: int = canon_of(a) as int;
    let cb: int = canon_of(b) as int;
    let cc: int = canon_of(c) as int;
    lemma_add_congruence(b, c);
    lemma_mul_congruence(a, add_raw(b, c));
    lemma_mul_congruence(a, b);
    lemma_mul_congruence(a, c);
    lemma_add_congruence(mul_raw(a, b), mul_raw(a, c));
    lemma_mul_mod_noop_right(ca, cb + cc, p);
    lemma_add_mod_noop(ca * cb, ca * cc, p);
    lemma_mul_is_distributive_add(ca, cb, cc);
}

/// Law: constructing from a canonical integer and canonicalizing returns it.
pub proof fn lemma_canonical_round_trip(n: u64)
    requires
        n < ORDER,
    ensures
        canon_of(n) == n,
{
}

/// Law: canonicalizing twice equals canonicalizing once.
pub proof fn lemma_canon_idempotent(x: u64)
    ensures
        canon_of(canon_of(x)) == canon_of(x),
{
}

/// Law: the canonical form of the field product equals the integer product
/// reduced modulo `ORDER`.
pub proof fn lemma_mul_matches_integer(a: u64, b: u64)
    ensures
        canon_of(mul_raw(a, b)) as int == (a as int * b as int) % (ORDER as int),
{
    lemma_mul_raw_mod(a, b);
    lemma_canon_is_mod(mul_raw(a, b));
}

/// Law: the canonical form of the field sum equals the integer sum reduced
/// modulo `ORDER`.
pub proof fn lemma_add_matches_integer(a: u64, b: u64)
    ensures
        canon_of(add_raw(a, b)) as int == (a + b) % (ORDER as int),
{
    lemma_add_raw_mod(a, b);
    lemma_canon_is_mod(add_raw(a, b));
}

/// Law: the canonical form of the field difference equals the integer
/// difference reduced modulo `ORDER` (Euclidean remainder).
pub proof fn lemma_sub_matches_integer(a: u64, b: u64)
    ensures
        canon_of(sub_raw(a, b)) as int == (a - b) % (ORDER as int),
{
    lemma_sub_raw_mod(a, b);
    lemma_canon_is_mod(sub_raw(a, b));
}

/// The 128-bit reduction. Splits the input into 32/64-bit limbs and folds the
/// high limbs back using `2^64 = EPSILON (mod ORDER)` and
/// `2^96 = -1 (mod ORDER)`.
fn reduce128(x: u128) -> (r: GoldilocksField)
    ensures
        r.0 == reduce128_raw(x as int),
{
    proof {
        reveal(reduce128_raw);
        vstd::arithmetic::div_mod::lemma_mod_bound(x as int, 0x1_0000_0000_0000_0000);
        vstd::arithmetic::div_mod::lemma_div_pos_is_pos(x as int, 0x1_0000_0000_0000_0000);
        vstd::arithmetic::div_mod::lemma_multiply_divide_lt(
            x as int,
            0x1_0000_0000_0000_0000,
            0x1_0000_0000_0000_0000,
        );
    }
    let x_lo: u64 = (x % 0x1_0000_0000_0000_0000u128) as u64;
    let x_hi: u64 = (x / 0x1_0000_0000_0000_0000u128) as u64;
    proof {
        vstd::arithmetic::div_mod::lemma_mod_bound(x_hi as int, 0x1_0000_0000);
        vstd::arithmetic::div_mod::lemma_div_pos_is_pos(x_hi as int, 0x1_0000_0000);
        vstd::arithmetic::div_mod::lemma_multiply_divide_lt(x_hi as int, 0x1_0000_0000, 0x1_0000_0000);
    }
    let x_hi_hi: u64 = x_hi / 0x1_0000_0000;
    let x_hi_lo: u64 = x_hi % 0x1_0000_0000;

    let t0: u64 = if x_lo >= x_hi_hi {
        x_lo - x_hi_hi
    } else {
        // A borrow is rare: it is compensated by a further EPSILON subtraction,
        // which cannot underflow since the wrapped value exceeds 2^64 - 2^32.
        x_lo.wrapping_sub(x_hi_hi) - EPSILON
    };
    proof {
        lemma_mul_upper_bound(x_hi_lo as int, 0xFFFF_FFFF, EPSILON as int, EPSILON as int);
    }
    let t1: u64 = x_hi_lo * EPSILON;
    let sum: u64 = t0.wrapping_add(t1);
    let t2: u64 = if sum < t0 {
        // The final addition wrapped; one EPSILON correction always suffices
        // given the bounds on t0 and t1.
        sum + EPSILON
    } else {
        sum
    };
    GoldilocksField(t2)
}

} // verus!
