use vstd::prelude::*;
use crate::goldilocks::{GoldilocksField, add_raw, mul_raw, ORDER};
use crate::constants::{
    ALL_ROUND_CONSTANTS, MDS_MATRIX_CIRC, MDS_MATRIX_DIAG, FAST_PARTIAL_FIRST_ROUND_CONSTANT,
    FAST_PARTIAL_ROUND_CONSTANTS, FAST_PARTIAL_ROUND_VS, FAST_PARTIAL_ROUND_W_HATS,
    FAST_PARTIAL_ROUND_INITIAL_MATRIX, HALF_N_FULL_ROUNDS, N_PARTIAL_ROUNDS, N_ROUNDS,
};

verus! {

/// The permutation state holds 12 field elements.
pub const POSEIDON_STATE_WIDTH: usize = 12;

/// The permutation consumes a full 12-element state.
pub const POSEIDON_INPUT_NUM: usize = 12;

/// The permutation produces a full 12-element state.
pub const POSEIDON_OUTPUT_NUM: usize = 12;

/// The stored words of a sequence of field elements.
pub open spec fn words(s: Seq<GoldilocksField>) -> Seq<u64> {
    s.map_values(|f: GoldilocksField| f.0)
}

/// The constant layer: round constant `12 * round_ctr + i` is added to lane `i`.
pub open spec fn spec_constant_layer(s: Seq<u64>, round_ctr: int) -> Seq<u64> {
    Seq::new(12, |i: int| add_raw(s[i], ALL_ROUND_CONSTANTS[12 * round_ctr + i]))
}

/// The S-box `x |-> x^7`, computed as `(x * x^2) * (x^2)^2`.
pub open spec fn spec_sbox(x: u64) -> u64 {
    let x2 = mul_raw(x, x);
    let x4 = mul_raw(x2, x2);
    let x3 = mul_raw(x, x2);
    mul_raw(x3, x4)
}

/// The full S-box layer: the S-box applied to every lane.
pub open spec fn spec_sbox_layer(s: Seq<u64>) -> Seq<u64> {
    Seq::new(12, |i: int| spec_sbox(s[i]))
}

/// The first `i` circulant terms of MDS row `r`: the sum over `k < i` of
/// `s[(k + r) % 12] * MDS_MATRIX_CIRC[k]`, accumulated left to right.
pub open spec fn mds_row_acc(s: Seq<u64>, r: int, i: nat) -> u64
    decreases i,
{
    if i == 0 {
        0u64
    } else {
        add_raw(
            mds_row_acc(s, r, (i - 1) as nat),
            mul_raw(s[(i - 1 + r) % 12], MDS_MATRIX_CIRC[i - 1]),
        )
    }
}

/// MDS row `r`: all 12 circulant terms plus the diagonal term
/// `s[r] * MDS_MATRIX_DIAG[r]`.
pub open spec fn spec_mds_row(s: Seq<u64>, r: int) -> u64 {
    add_raw(mds_row_acc(s, r, 12), mul_raw(s[r], MDS_MATRIX_DIAG[r]))
}

/// The full MDS layer: each lane becomes its MDS row.
pub open spec fn spec_mds_layer(s: Seq<u64>) -> Seq<u64> {
    Seq::new(12, |i: int| spec_mds_row(s, i))
}

/// One full round: constants, then the S-box on every lane, then the MDS layer.
pub open spec fn spec_full_round(s: Seq<u64>, round_ctr: int) -> Seq<u64> {
    spec_mds_layer(spec_sbox_layer(spec_constant_layer(s, round_ctr)))
}

/// `k` consecutive full rounds, with round counters `round_ctr0`,
/// `round_ctr0 + 1`, ...
pub open spec fn spec_full_rounds(s: Seq<u64>, round_ctr0: int, k: nat) -> Seq<u64>
    decreases k,
{
    if k == 0 {
        s
    } else {
        spec_full_round(spec_full_rounds(s, round_ctr0, (k - 1) as nat), round_ctr0 + k - 1)
    }
}

/// The once-only constant vector added on entry to the partial rounds.
pub open spec fn spec_partial_first_layer(s: Seq<u64>) -> Seq<u64> {
    Seq::new(12, |i: int| add_raw(s[i], FAST_PARTIAL_FIRST_ROUND_CONSTANT[i]))
}

/// The contributions of rows `1..r` to column `c` of the one-time partial-round
/// basis change: the sum over `1 <= k < r` of
/// `s[k] * FAST_PARTIAL_ROUND_INITIAL_MATRIX[k - 1][c - 1]`.
pub open spec fn partial_init_acc(s: Seq<u64>, c: int, r: nat) -> u64
    decreases r,
{
    if r <= 1 {
        0u64
    } else {
        add_raw(
            partial_init_acc(s, c, (r - 1) as nat),
            mul_raw(s[r - 1], FAST_PARTIAL_ROUND_INITIAL_MATRIX[r - 2][c - 1]),
        )
    }
}

/// The one-time linear transform before the partial rounds: lane 0 passes
/// through, lane `c >= 1` collects the matrix column `c`.
pub open spec fn spec_mds_partial_layer_init(s: Seq<u64>) -> Seq<u64> {
    Seq::new(12, |c: int| if c == 0 { s[0] } else { partial_init_acc(s, c, 12) })
}

/// The new lane 0 of the fast partial linear layer, truncated to its first
/// `i` terms: `s[0] * (MDS_MATRIX_CIRC[0] + MDS_MATRIX_DIAG[0])` plus the sum
/// over `1 <= k < i` of `s[k] * FAST_PARTIAL_ROUND_W_HATS[r][k - 1]`.
pub open spec fn partial_fast_acc(s: Seq<u64>, r: int, i: nat) -> u64
    decreases i,
{
    if i <= 1 {
        mul_raw(s[0], (MDS_MATRIX_CIRC[0] + MDS_MATRIX_DIAG[0]) as u64)
    } else {
        add_raw(
            partial_fast_acc(s, r, (i - 1) as nat),
            mul_raw(s[i - 1], FAST_PARTIAL_ROUND_W_HATS[r][i - 2]),
        )
    }
}

/// The fast partial-round linear layer for partial round `r`: lane 0 becomes a
/// full row product, lane `i >= 1` is updated from lane 0 alone.
pub open spec fn spec_mds_partial_layer_fast(s: Seq<u64>, r: int) -> Seq<u64> {
    Seq::new(
        12,
        |i: int|
            if i == 0 {
                partial_fast_acc(s, r, 12)
            } else {
                add_raw(mul_raw(s[0], FAST_PARTIAL_ROUND_VS[r][i - 1]), s[i])
            },
    )
}

/// One partial round `r`: the S-box on lane 0, a single round constant on
/// lane 0 (except in the last partial round), then the fast linear layer.
pub open spec fn spec_partial_round(s: Seq<u64>, r: int) -> Seq<u64> {
    let sb = spec_sbox(s[0]);
    let x = if r < N_PARTIAL_ROUNDS - 1 {
        add_raw(sb, FAST_PARTIAL_ROUND_CONSTANTS[r])
    } else {
        sb
    };
    spec_mds_partial_layer_fast(s.update(0, x), r)
}

/// The first `k` partial rounds.
pub open spec fn spec_partial_rounds(s: Seq<u64>, k: nat) -> Seq<u64>
    decreases k,
{
    if k == 0 {
        s
    } else {
        spec_partial_round(spec_partial_rounds(s, (k - 1) as nat), k - 1)
    }
}

/// One partial round in its reference form, i.e. as a standard Poseidon round
/// whose S-box touches lane 0 only: the round's 12 constants on every lane,
/// the S-box on lane 0, then the full circulant-plus-diagonal MDS layer.
pub open spec fn spec_reference_partial_round(s: Seq<u64>, round_ctr: int) -> Seq<u64> {
    let c = spec_constant_layer(s, round_ctr);
    spec_mds_layer(c.update(0, spec_sbox(c[0])))
}

/// The first `k` reference-form partial rounds, with round counters starting
/// where the first half of the full rounds stopped.
pub open spec fn spec_reference_partial_rounds(s: Seq<u64>, k: nat) -> Seq<u64>
    decreases k,
{
    if k == 0 {
        s
    } else {
        spec_reference_partial_round(
            spec_reference_partial_rounds(s, (k - 1) as nat),
            HALF_N_FULL_ROUNDS + k - 1,
        )
    }
}

/// The whole permutation: 4 full rounds, the partial-round transition and 22
/// partial rounds, then 4 more full rounds with the round counter continuing
/// at 26. The partial-round block uses the O(n)-per-round decomposition
/// (`spec_mds_partial_layer_init` and `spec_mds_partial_layer_fast`); it is
/// expected to compute the same field elements (equal canonical values, not
/// equal stored words) as the reference rounds of
/// `spec_reference_partial_rounds`, an algebraic property of the externally
/// supplied coefficient tables that this development states but does not
/// prove; the test suite checks it on concrete states.
pub open spec fn spec_poseidon(s: Seq<u64>) -> Seq<u64> {
    let a = spec_full_rounds(s, 0, HALF_N_FULL_ROUNDS as nat);
    let b = spec_mds_partial_layer_init(spec_partial_first_layer(a));
    let c = spec_partial_rounds(b, N_PARTIAL_ROUNDS as nat);
    spec_full_rounds(c, HALF_N_FULL_ROUNDS + N_PARTIAL_ROUNDS, HALF_N_FULL_ROUNDS as nat)
}

/// Adds the 12 round constants of round `round_ctr` to the state, element-wise.
pub fn constant_layer_field(state: &mut [GoldilocksField; 12], round_ctr: usize)
    requires
        round_ctr < N_ROUNDS,
    ensures
        words(final(state)@) == spec_constant_layer(words(old(state)@), round_ctr as int),
{
    let ghost s0 = words(old(state)@);
    for i in 0..12usize
        invariant
            round_ctr < N_ROUNDS,
            state@.len() == 12,
            forall|j: int| 0 <= j < i ==> state@[j].0 == spec_constant_layer(s0, round_ctr as int)[j],
            forall|j: int| i <= j < 12 ==> state@[j].0 == s0[j],
    {
        let c = GoldilocksField::from_noncanonical_u64(ALL_ROUND_CONSTANTS[i + 12 * round_ctr]);
        state[i] = state[i].add(c);
    }
    proof {
        assert(words(state@) =~= spec_constant_layer(s0, round_ctr as int));
    }
}

/// The S-box `x |-> x^7`, via `x^2`, `x^4 = (x^2)^2` and `x^3 = x * x^2`.
pub fn sbox_monomial(x: GoldilocksField) -> (r: GoldilocksField)
    ensures
        r.0 == spec_sbox(x.0),
{
    let x2 = x.square();
    let x4 = x2.square();
    let x3 = x.mul(x2);
    x3.mul(x4)
}

/// Applies the S-box to every state element.
pub fn sbox_layer_field(state: &mut [GoldilocksField; 12])
    ensures
        words(final(state)@) == spec_sbox_layer(words(old(state)@)),
{
    let ghost s0 = words(old(state)@);
    for i in 0..12usize
        invariant
            state@.len() == 12,
            forall|j: int| 0 <= j < i ==> state@[j].0 == spec_sbox_layer(s0)[j],
            forall|j: int| i <= j < 12 ==> state@[j].0 == s0[j],
    {
        state[i] = sbox_monomial(state[i]);
    }
    proof {
        assert(words(state@) =~= spec_sbox_layer(s0));
    }
}

/// One row of the MDS layer: the circulant sum plus the diagonal term.
pub fn mds_row_shf_field(r: usize, v: &[GoldilocksField; 12]) -> (res: GoldilocksField)
    requires
        r < 12,
    ensures
        res.0 == spec_mds_row(words(v@), r as int),
{
    let ghost s = words(v@);
    let mut res = GoldilocksField::from_noncanonical_u64(0);
    for i in 0..12usize
        invariant
            r < 12,
            s == words(v@),
            res.0 == mds_row_acc(s, r as int, i as nat),
    {
        let t = GoldilocksField::from_noncanonical_u64(MDS_MATRIX_CIRC[i]);
        let idx = (i + r) % 12;
        proof {
            assert(idx as int == (i + r as int) % 12);
            assert(s[idx as int] == v@[idx as int].0);
        }
        res = res.add(v[idx].mul(t));
        proof {
            assert(mds_row_acc(s, r as int, (i + 1) as nat) == add_raw(
                mds_row_acc(s, r as int, i as nat),
                mul_raw(s[(i + r as int) % 12], MDS_MATRIX_CIRC[i as int]),
            ));
        }
    }
    let d = GoldilocksField::from_noncanonical_u64(MDS_MATRIX_DIAG[r]);
    res.add(v[r].mul(d))
}

/// The full MDS linear layer: every output lane is one MDS row of the input.
#[verifier::rlimit(60)]
pub fn mds_layer_field(state: &[GoldilocksField; 12]) -> (res: [GoldilocksField; 12])
    ensures
        words(res@) == spec_mds_layer(words(state@)),
{
    let ghost s = words(state@);
    let mut res = [GoldilocksField(0); 12];
    for i in 0..12usize
        invariant
            s == words(state@),
            res@.len() == 12,
            forall|j: int| 0 <= j < i ==> res@[j].0 == spec_mds_row(s, j),
    {
        res[i] = mds_row_shf_field(i, state);
    }
    proof {
        assert(words(res@) =~= spec_mds_layer(s));
    }
    res
}

/// Adds the once-only partial-round entry constants to the state, element-wise.
pub fn partial_first_constant_layer(state: &mut [GoldilocksField; 12])
    ensures
        words(final(state)@) == spec_partial_first_layer(words(old(state)@)),
{
    let ghost s0 = words(old(state)@);
    for i in 0..12usize
        invariant
            state@.len() == 12,
            forall|j: int| 0 <= j < i ==> state@[j].0 == spec_partial_first_layer(s0)[j],
            forall|j: int| i <= j < 12 ==> state@[j].0 == s0[j],
    {
        let c = GoldilocksField::from_noncanonical_u64(FAST_PARTIAL_FIRST_ROUND_CONSTANT[i]);
        state[i] = state[i].add(c);
    }
    proof {
        assert(words(state@) =~= spec_partial_first_layer(s0));
    }
}

/// The one-time linear transform entering the partial rounds: lane 0 passes
/// through, every other lane collects its column of the initial matrix.
#[verifier::rlimit(60)]
pub fn mds_partial_layer_init(state: &[GoldilocksField; 12]) -> (result: [GoldilocksField; 12])
    ensures
        words(result@) == spec_mds_partial_layer_init(words(state@)),
{
    let ghost s = words(state@);
    let mut result = [GoldilocksField(0); 12];
    result[0] = state[0];
    for c in 1..12usize
        invariant
            s == words(state@),
            result@.len() == 12,
            result@[0].0 == s[0],
            forall|k: int| 1 <= k < c ==> result@[k].0 == partial_init_acc(s, k, 12),
    {
        let mut acc = GoldilocksField(0);
        for r in 1..12usize
            invariant
                1 <= c < 12,
                s == words(state@),
                acc.0 == partial_init_acc(s, c as int, r as nat),
        {
            let t = GoldilocksField::from_noncanonical_u64(
                FAST_PARTIAL_ROUND_INITIAL_MATRIX[r - 1][c - 1],
            );
            acc = acc.add(state[r].mul(t));
            proof {
                assert(partial_init_acc(s, c as int, (r + 1) as nat) == add_raw(
                    partial_init_acc(s, c as int, r as nat),
                    mul_raw(s[r as int], FAST_PARTIAL_ROUND_INITIAL_MATRIX[r - 1][c - 1]),
                ));
            }
        }
        result[c] = acc;
    }
    proof {
        assert(words(result@) =~= spec_mds_partial_layer_init(s));
    }
    result
}

/// The fast partial-round linear layer: an O(12) update equivalent to the full
/// MDS multiply, given that only lane 0 changed non-linearly this round.
#[verifier::rlimit(60)]
pub fn mds_partial_layer_fast_field(
    state: &[GoldilocksField; 12],
    r: usize,
) -> (result: [GoldilocksField; 12])
    requires
        r < N_PARTIAL_ROUNDS,
    ensures
        words(result@) == spec_mds_partial_layer_fast(words(state@), r as int),
{
    let ghost s = words(state@);
    let s0 = state[0];
    let mds0to0: u64 = MDS_MATRIX_CIRC[0] + MDS_MATRIX_DIAG[0];
    let mut d = s0.mul(GoldilocksField::from_noncanonical_u64(mds0to0));
    for i in 1..12usize
        invariant
            r < N_PARTIAL_ROUNDS,
            s == words(state@),
            d.0 == partial_fast_acc(s, r as int, i as nat),
    {
        let t = GoldilocksField::from_noncanonical_u64(FAST_PARTIAL_ROUND_W_HATS[r][i - 1]);
        d = d.add(state[i].mul(t));
        proof {
            assert(partial_fast_acc(s, r as int, (i + 1) as nat) == add_raw(
                partial_fast_acc(s, r as int, i as nat),
                mul_raw(s[i as int], FAST_PARTIAL_ROUND_W_HATS[r as int][i - 1]),
            ));
        }
    }
    let mut result = [GoldilocksField(0); 12];
    result[0] = d;
    for i in 1..12usize
        invariant
            r < N_PARTIAL_ROUNDS,
            s == words(state@),
            result@.len() == 12,
            result@[0].0 == partial_fast_acc(s, r as int, 12),
            forall|j: int|
                1 <= j < i ==> result@[j].0 == add_raw(
                    mul_raw(s[0], FAST_PARTIAL_ROUND_VS[r as int][j - 1]),
                    s[j],
                ),
    {
        let t = GoldilocksField::from_noncanonical_u64(FAST_PARTIAL_ROUND_VS[r][i - 1]);
        result[i] = state[0].mul(t).add(state[i]);
    }
    proof {
        assert(words(result@) =~= spec_mds_partial_layer_fast(s, r as int));
    }
    result
}

/// The whole Poseidon permutation over a 12-element state: 4 full rounds, the
/// partial-round transition, 22 partial rounds, and 4 final full rounds.
pub fn calculate_poseidon(full_input: [GoldilocksField; 12]) -> (out: [GoldilocksField; 12])
    ensures
        words(out@) == spec_poseidon(words(full_input@)),
{
    let ghost input_words = words(full_input@);
    let mut state = full_input;

    // First set of full rounds, round counters 0..4.
    for r in 0..HALF_N_FULL_ROUNDS
        invariant
            input_words == words(full_input@),
            words(state@) == spec_full_rounds(input_words, 0, r as nat),
    {
        constant_layer_field(&mut state, r);
        sbox_layer_field(&mut state);
        state = mds_layer_field(&state);
    }
    let ghost after_full = spec_full_rounds(input_words, 0, HALF_N_FULL_ROUNDS as nat);

    // Transition into the partial rounds.
    partial_first_constant_layer(&mut state);
    state = mds_partial_layer_init(&state);
    let ghost base = spec_mds_partial_layer_init(spec_partial_first_layer(after_full));

    // Partial rounds; the round constant is skipped in the last one.
    for r in 0..N_PARTIAL_ROUNDS - 1
        invariant
            base == spec_mds_partial_layer_init(spec_partial_first_layer(after_full)),
            after_full == spec_full_rounds(input_words, 0, HALF_N_FULL_ROUNDS as nat),
            input_words == words(full_input@),
            words(state@) == spec_partial_rounds(base, r as nat),
    {
        let ghost prev = words(state@);
        let sbox_in = state[0];
        state[0] = sbox_monomial(sbox_in);
        state[0] = state[0].add(
            GoldilocksField::from_noncanonical_u64(FAST_PARTIAL_ROUND_CONSTANTS[r]),
        );
        proof {
            assert(words(state@) =~= prev.update(
                0,
                add_raw(spec_sbox(prev[0]), FAST_PARTIAL_ROUND_CONSTANTS[r as int]),
            ));
        }
        state = mds_partial_layer_fast_field(&state, r);
    }
    let sbox_in = state[0];
    let ghost prev = words(state@);
    state[0] = sbox_monomial(sbox_in);
    proof {
        assert(words(state@) =~= prev.update(0, spec_sbox(prev[0])));
    }
    state = mds_partial_layer_fast_field(&state, N_PARTIAL_ROUNDS - 1);
    proof {
        assert(words(state@) == spec_partial_rounds(base, N_PARTIAL_ROUNDS as nat));
    }
    let ghost after_partial = spec_partial_rounds(base, N_PARTIAL_ROUNDS as nat);

    // Second set of full rounds, round counters 26..30.
    for r in 0..HALF_N_FULL_ROUNDS
        invariant
            after_partial == spec_partial_rounds(base, N_PARTIAL_ROUNDS as nat),
            base == spec_mds_partial_layer_init(spec_partial_first_layer(after_full)),
            after_full == spec_full_rounds(input_words, 0, HALF_N_FULL_ROUNDS as nat),
            input_words == words(full_input@),
            words(state@) == spec_full_rounds(
                after_partial,
                HALF_N_FULL_ROUNDS + N_PARTIAL_ROUNDS,
                r as nat,
            ),
    {
        constant_layer_field(&mut state, HALF_N_FULL_ROUNDS + N_PARTIAL_ROUNDS + r);
        sbox_layer_field(&mut state);
        state = mds_layer_field(&state);
    }
    state
}

/// The partial-round block in its reference form: one standard round per
/// partial round (12 round constants, the S-box on lane 0 only, the full
/// 12x12 circulant-plus-diagonal MDS multiply), for round counters 4..26.
/// The optimized path taken by `calculate_poseidon` — the one-time transition
/// (`partial_first_constant_layer`, `mds_partial_layer_init`) followed by the
/// fast per-round layers — is expected to compute the same field elements as
/// this function, in O(12) instead of O(144) work per round; that equality is
/// a property of the externally supplied coefficient tables, checked on
/// concrete states by the test suite rather than proved here.
pub fn partial_rounds_reference(full_input: [GoldilocksField; 12]) -> (out: [GoldilocksField; 12])
    ensures
        words(out@) == spec_reference_partial_rounds(words(full_input@), N_PARTIAL_ROUNDS as nat),
{
    let ghost input_words = words(full_input@);
    let mut state = full_input;
    for r in 0..N_PARTIAL_ROUNDS
        invariant
            input_words == words(full_input@),
            words(state@) == spec_reference_partial_rounds(input_words, r as nat),
    {
        let ghost prev = words(state@);
        constant_layer_field(&mut state, HALF_N_FULL_ROUNDS + r);
        let sbox_in = state[0];
        state[0] = sbox_monomial(sbox_in);
        proof {
            let c = spec_constant_layer(prev, HALF_N_FULL_ROUNDS + r as int);
            assert(words(state@) =~= c.update(0, spec_sbox(c[0])));
        }
        state = mds_layer_field(&state);
    }
    state
}

/// The all-zero sponge state.
pub open spec fn zero_state() -> Seq<u64> {
    Seq::new(12, |i: int| 0u64)
}

/// Overwrites state positions `[0, chunk.len())` with the chunk; positions at
/// and beyond the chunk length keep their previous values.
pub open spec fn load_chunk(s: Seq<u64>, chunk: Seq<u64>) -> Seq<u64>
    recommends
        chunk.len() <= 8,
{
    Seq::new(12, |i: int| if i < chunk.len() { chunk[i] } else { s[i] })
}

/// Absorbs the inputs into the state, 8 lanes per permutation call: each chunk
/// overwrites the first `chunk.len()` lanes and the permutation runs on the
/// full 12-lane state.
pub open spec fn spec_absorb(s: Seq<u64>, ins: Seq<u64>) -> Seq<u64>
    decreases ins.len(),
{
    if ins.len() == 0 {
        s
    } else if ins.len() <= 8 {
        spec_poseidon(load_chunk(s, ins))
    } else {
        spec_absorb(spec_poseidon(load_chunk(s, ins.take(8))), ins.skip(8))
    }
}

/// The final sponge state: absorption starting from the all-zero state; an
/// empty input still performs exactly one permutation of the all-zero state.
pub open spec fn spec_sponge(ins: Seq<u64>) -> Seq<u64> {
    if ins.len() == 0 {
        spec_poseidon(zero_state())
    } else {
        spec_absorb(zero_state(), ins)
    }
}

/// The digest: the first 4 lanes of the final sponge state, as raw words.
pub open spec fn spec_digest_words(ins: Seq<u64>) -> Seq<u64> {
    spec_sponge(ins).subrange(0, 4)
}

/// How many permutation calls absorbing `n` input elements takes.
pub open spec fn absorb_calls(n: nat) -> nat
    decreases n,
{
    if n == 0 {
        0
    } else if n <= 8 {
        1
    } else {
        1 + absorb_calls((n - 8) as nat)
    }
}

/// How many permutation calls hashing `n` input elements takes: one even for
/// an empty input.
pub open spec fn sponge_calls(n: nat) -> nat {
    if n == 0 {
        1
    } else {
        absorb_calls(n)
    }
}

/// Law: the permutation is a pure, deterministic map: identical 12-element
/// inputs give identical outputs.
pub proof fn lemma_poseidon_deterministic(s1: Seq<u64>, s2: Seq<u64>)
    requires
        s1 == s2,
    ensures
        spec_poseidon(s1) == spec_poseidon(s2),
{
}

/// Law: hashing `k` elements performs exactly `k / 8` permutation calls when
/// `k` is a positive multiple of 8, `(k + 7) / 8` calls for any positive `k`,
/// and one call for an empty input.
pub proof fn lemma_sponge_call_count(n: nat)
    ensures
        n == 0 ==> sponge_calls(n) == 1,
        n > 0 ==> sponge_calls(n) == (n + 7) / 8,
        n % 8 == 0 && n > 0 ==> sponge_calls(n) == n / 8,
    decreases n,
{
    if n > 8 {
        lemma_sponge_call_count((n - 8) as nat);
        vstd::arithmetic::div_mod::lemma_mod_sub_multiples_vanish(n as int, 8);
    }
}

/// Law: a final chunk shorter than 8 elements leaves state positions at and
/// beyond its length carrying the previous permutation output; nothing is
/// padded or zeroed.
pub proof fn lemma_final_chunk_carryover(s: Seq<u64>, ins: Seq<u64>)
    requires
        s.len() == 12,
        0 < ins.len() <= 8,
    ensures
        spec_absorb(s, ins) == spec_poseidon(load_chunk(s, ins)),
        forall|i: int| ins.len() <= i < 12 ==> load_chunk(s, ins)[i] == s[i],
{
}

/// The sponge-style hash over any number of field elements: absorbs chunks of
/// up to 8 elements, permuting after each chunk, and returns the first 4 lanes.
/// An empty input performs one permutation of the all-zero state.
pub fn calculate_arbitrary_poseidon(inputs: &[GoldilocksField]) -> (r: [GoldilocksField; 4])
    ensures
        words(r@) == spec_digest_words(words(inputs@)),
{
    let ghost iw = words(inputs@);
    let mut state = [GoldilocksField(0); 12];
    proof {
        assert(words(state@) =~= zero_state());
    }
    let n = inputs.len();
    if n == 0 {
        state = calculate_poseidon(state);
    } else {
        proof {
            assert(iw.skip(0) =~= iw);
        }
        let mut idx: usize = 0;
        while idx < n
            invariant
                iw == words(inputs@),
                n == inputs@.len(),
                idx <= n,
                idx < n ==> spec_absorb(words(state@), iw.skip(idx as int)) == spec_absorb(
                    zero_state(),
                    iw,
                ),
                idx == n ==> words(state@) == spec_absorb(zero_state(), iw),
            decreases n - idx,
        {
            let rem = n - idx;
            let end = if rem < 8 {
                rem
            } else {
                8
            };
            let ghost prev = words(state@);
            for j in 0..end
                invariant
                    idx + end <= n,
                    end <= 8,
                    n == inputs@.len(),
                    iw == words(inputs@),
                    prev.len() == 12,
                    state@.len() == 12,
                    forall|k: int| 0 <= k < j ==> state@[k].0 == iw[idx + k],
                    forall|k: int| j <= k < 12 ==> state@[k].0 == prev[k],
            {
                state[j] = inputs[idx + j];
            }
            proof {
                let rest = iw.skip(idx as int);
                assert(words(state@) =~= load_chunk(prev, iw.subrange(idx as int, (idx + end) as int)));
                if rem <= 8 {
                    assert(rest =~= iw.subrange(idx as int, (idx + end) as int));
                } else {
                    assert(rest.take(8) =~= iw.subrange(idx as int, (idx + 8) as int));
                    assert(rest.skip(8) =~= iw.skip(idx + 8));
                }
            }
            state = calculate_poseidon(state);
            idx = idx + end;
        }
    }
    let out = [state[0], state[1], state[2], state[3]];
    proof {
        assert(words(out@) =~= spec_digest_words(iw));
    }
    out
}

/// The 64-bit word big-endian-decoded from bytes `8i .. 8i + 8`.
pub open spec fn spec_word_be(b: Seq<u8>, i: int) -> u64 {
    (b[8 * i] * 0x100_0000_0000_0000 + b[8 * i + 1] * 0x1_0000_0000_0000 + b[8 * i + 2]
        * 0x100_0000_0000 + b[8 * i + 3] * 0x1_0000_0000 + b[8 * i + 4] * 0x100_0000 + b[8 * i + 5]
        * 0x1_0000 + b[8 * i + 6] * 0x100 + b[8 * i + 7]) as u64
}

/// All words big-endian-decoded from a byte sequence whose length is a
/// multiple of 8.
pub open spec fn spec_bytes_to_words(b: Seq<u8>) -> Seq<u64> {
    Seq::new((b.len() as int / 8) as nat, |i: int| spec_word_be(b, i))
}

/// Byte `k` (big-endian, `k` in `0..8`) of a 64-bit word.
pub open spec fn spec_be_byte(w: u64, k: int) -> u8 {
    if k == 0 {
        ((w / 0x100_0000_0000_0000) % 0x100) as u8
    } else if k == 1 {
        ((w / 0x1_0000_0000_0000) % 0x100) as u8
    } else if k == 2 {
        ((w / 0x100_0000_0000) % 0x100) as u8
    } else if k == 3 {
        ((w / 0x1_0000_0000) % 0x100) as u8
    } else if k == 4 {
        ((w / 0x100_0000) % 0x100) as u8
    } else if k == 5 {
        ((w / 0x1_0000) % 0x100) as u8
    } else if k == 6 {
        ((w / 0x100) % 0x100) as u8
    } else {
        (w % 0x100) as u8
    }
}

/// The big-endian bytes of a word sequence, 8 bytes per word.
pub open spec fn spec_words_to_bytes(ws: Seq<u64>) -> Seq<u8> {
    Seq::new(ws.len() * 8, |j: int| spec_be_byte(ws[j / 8], j % 8))
}

/// Big-endian-decodes a byte vector, whose length must be a multiple of 8,
/// into 64-bit words.
pub fn bytes_to_u64s(bytes: Vec<u8>) -> (res: Vec<u64>)
    requires
        bytes@.len() % 8 == 0,
    ensures
        res@ == spec_bytes_to_words(bytes@),
{
    let mut res: Vec<u64> = Vec::new();
    let n_words = bytes.len() / 8;
    proof {
        vstd::arithmetic::div_mod::lemma_fundamental_div_mod(bytes@.len() as int, 8);
    }
    for i in 0..n_words
        invariant
            n_words == bytes@.len() as int / 8,
            bytes@.len() == 8 * n_words,
            8 * n_words <= usize::MAX,
            res@.len() == i,
            forall|k: int| 0 <= k < i ==> res@[k] == spec_word_be(bytes@, k),
    {
        let b0 = bytes[8 * i] as u64;
        let b1 = bytes[8 * i + 1] as u64;
        let b2 = bytes[8 * i + 2] as u64;
        let b3 = bytes[8 * i + 3] as u64;
        let b4 = bytes[8 * i + 4] as u64;
        let b5 = bytes[8 * i + 5] as u64;
        let b6 = bytes[8 * i + 6] as u64;
        let b7 = bytes[8 * i + 7] as u64;
        let w: u64 = b0 * 0x100_0000_0000_0000 + b1 * 0x1_0000_0000_0000 + b2 * 0x100_0000_0000 + b3
            * 0x1_0000_0000 + b4 * 0x100_0000 + b5 * 0x1_0000 + b6 * 0x100 + b7;
        res.push(w);
    }
    proof {
        assert(res@ =~= spec_bytes_to_words(bytes@));
    }
    res
}

/// Big-endian-encodes each word as 8 bytes.
pub fn u64s_to_bytes(arr: &[u64]) -> (res: Vec<u8>)
    ensures
        res@ == spec_words_to_bytes(arr@),
{
    let mut res: Vec<u8> = Vec::new();
    let n = arr.len();
    for i in 0..n
        invariant
            n == arr@.len(),
            res@.len() == 8 * i,
            forall|j: int| 0 <= j < 8 * i ==> res@[j] == spec_be_byte(arr@[j / 8], j % 8),
    {
        let w = arr[i];
        res.push(((w / 0x100_0000_0000_0000) % 0x100) as u8);
        res.push(((w / 0x1_0000_0000_0000) % 0x100) as u8);
        res.push(((w / 0x100_0000_0000) % 0x100) as u8);
        res.push(((w / 0x1_0000_0000) % 0x100) as u8);
        res.push(((w / 0x100_0000) % 0x100) as u8);
        res.push(((w / 0x1_0000) % 0x100) as u8);
        res.push(((w / 0x100) % 0x100) as u8);
        res.push((w % 0x100) as u8);
        proof {
            assert forall|j: int| 0 <= j < 8 * (i + 1) implies res@[j] == spec_be_byte(
                arr@[j / 8],
                j % 8,
            ) by {
                if j >= 8 * i {
                    assert(j / 8 == i as int);
                    assert(j % 8 == j - 8 * i);
                }
            }
        }
    }
    proof {
        assert(res@ =~= spec_words_to_bytes(arr@));
    }
    res
}

/// Hashes canonical 64-bit integers; the digest is returned as the raw
/// (possibly non-canonical) stored words of the first 4 state lanes.
pub fn poseidon_u64(inputs: &[u64]) -> (r: [u64; 4])
    requires
        forall|i: int| 0 <= i < inputs@.len() ==> inputs@[i] < ORDER,
    ensures
        r@ == spec_digest_words(inputs@),
{
    let mut fields: Vec<GoldilocksField> = Vec::new();
    let n = inputs.len();
    for i in 0..n
        invariant
            n == inputs@.len(),
            forall|k: int| 0 <= k < n ==> inputs@[k] < ORDER,
            fields@.len() == i,
            forall|k: int| 0 <= k < i ==> fields@[k].0 == inputs@[k],
    {
        fields.push(GoldilocksField::from_canonical_u64(inputs[i]));
    }
    proof {
        assert(words(fields@) =~= inputs@);
    }
    let res = calculate_arbitrary_poseidon(fields.as_slice());
    let out = [res[0].0, res[1].0, res[2].0, res[3].0];
    proof {
        assert(out@ =~= spec_digest_words(inputs@));
    }
    out
}

/// Hashes a byte string whose length is a multiple of 8, big-endian-decoding
/// it into canonical words first.
pub fn poseidon_u64_bytes(bytes: &[u8]) -> (r: [u64; 4])
    requires
        bytes@.len() % 8 == 0,
        forall|i: int| 0 <= i < bytes@.len() as int / 8 ==> spec_word_be(bytes@, i) < ORDER,
    ensures
        r@ == spec_digest_words(spec_bytes_to_words(bytes@)),
{
    let mut owned: Vec<u8> = Vec::new();
    let n = bytes.len();
    for i in 0..n
        invariant
            n == bytes@.len(),
            owned@.len() == i,
            forall|k: int| 0 <= k < i ==> owned@[k] == bytes@[k],
    {
        owned.push(bytes[i]);
    }
    proof {
        assert(owned@ =~= bytes@);
    }
    let inputs = bytes_to_u64s(owned);
    poseidon_u64(inputs.as_slice())
}

/// Hashes canonical 64-bit integers and returns the digest as 32 big-endian
/// bytes, 8 per digest word.
pub fn poseidon_u64_for_bytes(inputs: &[u64]) -> (r: [u8; 32])
    requires
        forall|i: int| 0 <= i < inputs@.len() ==> inputs@[i] < ORDER,
    ensures
        r@ == spec_words_to_bytes(spec_digest_words(inputs@)),
{
    let res = poseidon_u64(inputs);
    let bytes = u64s_to_bytes(res.as_slice());
    let mut out = [0u8; 32];
    for i in 0..32usize
        invariant
            bytes@ == spec_words_to_bytes(spec_digest_words(inputs@)),
            bytes@.len() == 32,
            out@.len() == 32,
            forall|k: int| 0 <= k < i ==> out@[k] == bytes@[k],
    {
        out[i] = bytes[i];
    }
    proof {
        assert(out@ =~= bytes@);
    }
    out
}

/// Hashes a byte string whose length is a multiple of 8 and returns the digest
/// as 32 big-endian bytes.
pub fn poseidon_u64_bytes_for_bytes(bytes: &[u8]) -> (r: [u8; 32])
    requires
        bytes@.len() % 8 == 0,
        forall|i: int| 0 <= i < bytes@.len() as int / 8 ==> spec_word_be(bytes@, i) < ORDER,
    ensures
        r@ == spec_words_to_bytes(spec_digest_words(spec_bytes_to_words(bytes@))),
{
    let res = poseidon_u64_bytes(bytes);
    let bytes_out = u64s_to_bytes(res.as_slice());
    let mut out = [0u8; 32];
    for i in 0..32usize
        invariant
            bytes_out@ == spec_words_to_bytes(spec_digest_words(spec_bytes_to_words(bytes@))),
            bytes_out@.len() == 32,
            out@.len() == 32,
            forall|k: int| 0 <= k < i ==> out@[k] == bytes_out@[k],
    {
        out[i] = bytes_out[i];
    }
    proof {
        assert(out@ =~= bytes_out@);
    }
    out
}

} // verus!
