//! Element-wise combination of two sample sequences, and scalar summary
//! statistics of a sequence.
//!
//! Samples are `u64` IEEE-754 double bit patterns; the scalar arithmetic on
//! them is supplied by the caller as closures (floating-point arithmetic
//! cannot stand in this verified core). Each contract fixes the shape of the
//! result exactly and relates every produced sample to the supplied closure
//! through `call_ensures`.

use vstd::prelude::*;

use crate::operation::{operation_or_default, parse_operation, resolved_operation, OperationKind};

verus! {

/// Bit pattern of the IEEE-754 double `+0.0`, the sentinel that the
/// root-mean-square, mean and peak-to-peak statistics return on empty input.
pub const ZERO_BITS: u64 = 0;

/// Bit pattern of the IEEE-754 double negative infinity, the fold identity of
/// the maximum, and the value `calculate_max_amplitude` returns on empty input.
pub const NEG_INFINITY_BITS: u64 = 0xFFF0_0000_0000_0000;

/// Bit pattern of the IEEE-754 double positive infinity, the fold identity of
/// the minimum inside `calculate_peak_to_peak`.
pub const INFINITY_BITS: u64 = 0x7FF0_0000_0000_0000;

/// The shorter of two sequence lengths: how many index pairs element-wise
/// combination visits.
pub open spec fn min_len(a: nat, b: nat) -> nat {
    if a <= b {
        a
    } else {
        b
    }
}

/// `r` is an element-wise combination of `a` and `b` under the scalar closure
/// `f`: pairing stops at the shorter input, and each element of `r` is an
/// output `f` admits for the same-index pair of inputs.
pub open spec fn elementwise<F: Fn(u64, u64) -> u64>(
    f: F,
    a: Seq<u64>,
    b: Seq<u64>,
    r: Seq<u64>,
) -> bool {
    &&& r.len() == min_len(a.len(), b.len())
    &&& forall|i: int| 0 <= i < r.len() ==> call_ensures(f, (a[i], b[i]), #[trigger] r[i])
}

/// `r` is the result of folding `f` over `s` from `init`: `accs` records the
/// chain of accumulator values, each step being an input-output pair that `f`
/// admits, and `r` is the final accumulator.
pub open spec fn fold_chain<F: Fn(u64, u64) -> u64>(
    f: F,
    s: Seq<u64>,
    init: u64,
    accs: Seq<u64>,
    r: u64,
) -> bool {
    &&& accs.len() == s.len() + 1
    &&& accs[0] == init
    &&& forall|i: int| 0 <= i < s.len() ==> call_ensures(f, (accs[i], s[i]), #[trigger] accs[i + 1])
    &&& r == accs[s.len() as int]
}

/// Which element-wise relation the result of `perform_operation` satisfies,
/// for each operation the string can resolve to.
pub open spec fn combined_by<FA: Fn(u64, u64) -> u64, FS: Fn(u64, u64) -> u64, FM: Fn(
    u64,
    u64,
) -> u64>(
    kind: OperationKind,
    add_fn: FA,
    sub_fn: FS,
    mul_fn: FM,
    a: Seq<u64>,
    b: Seq<u64>,
    r: Seq<u64>,
) -> bool {
    match kind {
        OperationKind::Add => elementwise(add_fn, a, b, r),
        OperationKind::Subtract => elementwise(sub_fn, a, b, r),
        OperationKind::Multiply => elementwise(mul_fn, a, b, r),
    }
}

/// Combines two sequences element-wise with the scalar closure `f`,
/// truncating to the shorter input.
pub fn combine_pointwise<F: Fn(u64, u64) -> u64>(
    signal1: &Vec<u64>,
    signal2: &Vec<u64>,
    f: F,
) -> (r: Vec<u64>)
    requires
        forall|i: int|
            0 <= i < min_len(signal1@.len(), signal2@.len()) ==> call_requires(
                f,
                (signal1@[i], signal2@[i]),
            ),
    ensures
        elementwise(f, signal1@, signal2@, r@),
{
    let n = if signal1.len() <= signal2.len() {
        signal1.len()
    } else {
        signal2.len()
    };
    let mut r: Vec<u64> = Vec::new();
    let mut i: usize = 0;
    while i < n
        invariant
            n == min_len(signal1@.len(), signal2@.len()),
            forall|k: int| 0 <= k < n ==> call_requires(f, (signal1@[k], signal2@[k])),
            i <= n,
            r@.len() == i,
            forall|k: int| 0 <= k < i ==> call_ensures(f, (signal1@[k], signal2@[k]), #[trigger] r@[k]),
        decreases n - i,
    {
        r.push(f(signal1[i], signal2[i]));
        i += 1;
    }
    r
}

/// Adds two sequences element-wise with the supplied scalar addition,
/// truncating to the shorter input.
pub fn add_signals<F: Fn(u64, u64) -> u64>(signal1: &Vec<u64>, signal2: &Vec<u64>, add_fn: F) -> (r:
    Vec<u64>)
    requires
        forall|i: int|
            0 <= i < min_len(signal1@.len(), signal2@.len()) ==> call_requires(
                add_fn,
                (signal1@[i], signal2@[i]),
            ),
    ensures
        elementwise(add_fn, signal1@, signal2@, r@),
{
    combine_pointwise(signal1, signal2, add_fn)
}

/// Subtracts the second sequence from the first element-wise with the
/// supplied scalar subtraction, truncating to the shorter input.
pub fn subtract_signals<F: Fn(u64, u64) -> u64>(
    signal1: &Vec<u64>,
    signal2: &Vec<u64>,
    sub_fn: F,
) -> (r: Vec<u64>)
    requires
        forall|i: int|
            0 <= i < min_len(signal1@.len(), signal2@.len()) ==> call_requires(
                sub_fn,
                (signal1@[i], signal2@[i]),
            ),
    ensures
        elementwise(sub_fn, signal1@, signal2@, r@),
{
    combine_pointwise(signal1, signal2, sub_fn)
}

/// Multiplies two sequences element-wise with the supplied scalar
/// multiplication, truncating to the shorter input.
pub fn multiply_signals<F: Fn(u64, u64) -> u64>(
    signal1: &Vec<u64>,
    signal2: &Vec<u64>,
    mul_fn: F,
) -> (r: Vec<u64>)
    requires
        forall|i: int|
            0 <= i < min_len(signal1@.len(), signal2@.len()) ==> call_requires(
                mul_fn,
                (signal1@[i], signal2@[i]),
            ),
    ensures
        elementwise(mul_fn, signal1@, signal2@, r@),
{
    combine_pointwise(signal1, signal2, mul_fn)
}

/// Combines two sequences under the operation the string selects, applying
/// the fallback policy: an unrecognized string combines with `add_fn`.
/// A caller that wants the diagnostic the policy calls for inspects
/// `parse_operation` itself; this function only computes.
pub fn perform_operation<FA: Fn(u64, u64) -> u64, FS: Fn(u64, u64) -> u64, FM: Fn(
    u64,
    u64,
) -> u64>(
    signal1: &Vec<u64>,
    signal2: &Vec<u64>,
    operation: &str,
    add_fn: FA,
    sub_fn: FS,
    mul_fn: FM,
) -> (r: Vec<u64>)
    requires
        forall|i: int|
            0 <= i < min_len(signal1@.len(), signal2@.len()) ==> call_requires(
                add_fn,
                (signal1@[i], signal2@[i]),
            ),
        forall|i: int|
            0 <= i < min_len(signal1@.len(), signal2@.len()) ==> call_requires(
                sub_fn,
                (signal1@[i], signal2@[i]),
            ),
        forall|i: int|
            0 <= i < min_len(signal1@.len(), signal2@.len()) ==> call_requires(
                mul_fn,
                (signal1@[i], signal2@[i]),
            ),
    ensures
        r@.len() == min_len(signal1@.len(), signal2@.len()),
        combined_by(resolved_operation(operation@), add_fn, sub_fn, mul_fn, signal1@, signal2@, r@),
{
    let kind = operation_or_default(parse_operation(operation));
    match kind {
        OperationKind::Add => combine_pointwise(signal1, signal2, add_fn),
        OperationKind::Subtract => combine_pointwise(signal1, signal2, sub_fn),
        OperationKind::Multiply => combine_pointwise(signal1, signal2, mul_fn),
    }
}

/// Fallback law, lifted to the combination relation: under a string outside
/// the recognized set, the contract of `perform_operation` is exactly the
/// contract it has under `"add"` — the `add_fn` relation.
pub proof fn lemma_fallback_combines_like_add<FA: Fn(u64, u64) -> u64, FS: Fn(
    u64,
    u64,
) -> u64, FM: Fn(u64, u64) -> u64>(
    add_fn: FA,
    sub_fn: FS,
    mul_fn: FM,
    s: Seq<char>,
    a: Seq<u64>,
    b: Seq<u64>,
    r: Seq<u64>,
)
    requires
        crate::operation::known_operation_of(s) is None,
    ensures
        combined_by(resolved_operation(s), add_fn, sub_fn, mul_fn, a, b, r) == elementwise(
            add_fn,
            a,
            b,
            r,
        ),
        combined_by(resolved_operation("add"@), add_fn, sub_fn, mul_fn, a, b, r) == elementwise(
            add_fn,
            a,
            b,
            r,
        ),
{
}

/// The scalar closure's contract admits exactly one output per input pair,
/// as the contract of a pure arithmetic operation does.
pub open spec fn deterministic<F: Fn(u64, u64) -> u64>(f: F) -> bool {
    forall|x: u64, y: u64, o1: u64, o2: u64|
        call_ensures(f, (x, y), o1) && call_ensures(f, (x, y), o2) ==> o1 == o2
}

/// Under a deterministic scalar closure, the element-wise combination
/// relation determines the result: two sequences that both combine `a` and
/// `b` under `f` are equal.
pub proof fn lemma_elementwise_deterministic<F: Fn(u64, u64) -> u64>(
    f: F,
    a: Seq<u64>,
    b: Seq<u64>,
    r1: Seq<u64>,
    r2: Seq<u64>,
)
    requires
        deterministic(f),
        elementwise(f, a, b, r1),
        elementwise(f, a, b, r2),
    ensures
        r1 =~= r2,
{
}

/// Fallback law at the value level: under a deterministic scalar addition,
/// a combination under a string outside the recognized set and a combination
/// under `"add"` yield the same sequence.
pub proof fn lemma_unknown_operation_combines_equal<FA: Fn(u64, u64) -> u64, FS: Fn(
    u64,
    u64,
) -> u64, FM: Fn(u64, u64) -> u64>(
    add_fn: FA,
    sub_fn: FS,
    mul_fn: FM,
    s: Seq<char>,
    a: Seq<u64>,
    b: Seq<u64>,
    r_unknown: Seq<u64>,
    r_add: Seq<u64>,
)
    requires
        deterministic(add_fn),
        crate::operation::known_operation_of(s) is None,
        combined_by(resolved_operation(s), add_fn, sub_fn, mul_fn, a, b, r_unknown),
        combined_by(resolved_operation("add"@), add_fn, sub_fn, mul_fn, a, b, r_add),
    ensures
        r_unknown =~= r_add,
{
    lemma_elementwise_deterministic(add_fn, a, b, r_unknown, r_add);
}

/// The accumulator chains of two folds of the same deterministic closure
/// over the same samples from the same start agree up to index `i`.
proof fn lemma_fold_chain_agree_at<F: Fn(u64, u64) -> u64>(
    f: F,
    s: Seq<u64>,
    init: u64,
    accs1: Seq<u64>,
    r1: u64,
    accs2: Seq<u64>,
    r2: u64,
    i: int,
)
    requires
        deterministic(f),
        fold_chain(f, s, init, accs1, r1),
        fold_chain(f, s, init, accs2, r2),
        0 <= i <= s.len(),
    ensures
        accs1[i] == accs2[i],
    decreases i,
{
    if i > 0 {
        let j = i - 1;
        lemma_fold_chain_agree_at(f, s, init, accs1, r1, accs2, r2, j);
        assert(call_ensures(f, (accs1[j], s[j]), accs1[j + 1]));
        assert(call_ensures(f, (accs2[j], s[j]), accs2[j + 1]));
    }
}

/// Under a deterministic scalar closure, the fold relation determines the
/// result: two folds of `f` over `s` from `init` end in the same value, so
/// the statistics' contracts pin their result down once the scalar
/// arithmetic is fixed.
pub proof fn lemma_fold_chain_deterministic<F: Fn(u64, u64) -> u64>(
    f: F,
    s: Seq<u64>,
    init: u64,
    accs1: Seq<u64>,
    r1: u64,
    accs2: Seq<u64>,
    r2: u64,
)
    requires
        deterministic(f),
        fold_chain(f, s, init, accs1, r1),
        fold_chain(f, s, init, accs2, r2),
    ensures
        r1 == r2,
        accs1 =~= accs2,
{
    assert forall|i: int| 0 <= i < accs1.len() implies accs1[i] == accs2[i] by {
        lemma_fold_chain_agree_at(f, s, init, accs1, r1, accs2, r2, i);
    }
    lemma_fold_chain_agree_at(f, s, init, accs1, r1, accs2, r2, s.len() as int);
}

/// Folds the scalar closure `f` over the samples from `init`, returning the
/// final accumulator; the chain of accumulator values witnesses the result.
pub fn fold_samples<F: Fn(u64, u64) -> u64>(signal: &Vec<u64>, init: u64, f: F) -> (r: u64)
    requires
        forall|acc: u64, x: u64| call_requires(f, (acc, x)),
    ensures
        exists|accs: Seq<u64>| fold_chain(f, signal@, init, accs, r),
        signal@.len() == 0 ==> r == init,
{
    let mut acc = init;
    let ghost mut accs: Seq<u64> = seq![init];
    let mut i: usize = 0;
    while i < signal.len()
        invariant
            forall|a: u64, x: u64| call_requires(f, (a, x)),
            i <= signal@.len(),
            accs.len() == i + 1,
            accs[0] == init,
            forall|j: int| 0 <= j < i ==> call_ensures(f, (accs[j], signal@[j]), #[trigger] accs[j + 1]),
            acc == accs[i as int],
        decreases signal@.len() - i,
    {
        acc = f(acc, signal[i]);
        proof {
            accs = accs.push(acc);
        }
        i += 1;
    }
    proof {
        assert(fold_chain(f, signal@, init, accs, acc));
    }
    acc
}

/// Root-mean-square: folds `square_add_fn` (accumulate the square of each
/// sample) over the signal from `+0.0`, then applies `finish_fn` (divide by
/// the length and take the square root) to the sum. An empty signal returns
/// `+0.0` by an explicit guard, not through the fold.
pub fn calculate_rms<FQ: Fn(u64, u64) -> u64, FR: Fn(u64, usize) -> u64>(
    signal: &Vec<u64>,
    square_add_fn: FQ,
    finish_fn: FR,
) -> (r: u64)
    requires
        forall|acc: u64, x: u64| call_requires(square_add_fn, (acc, x)),
        forall|sum: u64, n: usize| call_requires(finish_fn, (sum, n)),
    ensures
        signal@.len() == 0 ==> r == ZERO_BITS,
        signal@.len() > 0 ==> exists|accs: Seq<u64>, sum: u64|
            fold_chain(square_add_fn, signal@, ZERO_BITS, accs, sum) && call_ensures(
                finish_fn,
                (sum, (signal@.len() as usize)),
                r,
            ),
{
    if signal.len() == 0 {
        return ZERO_BITS;
    }
    let sum = fold_samples(signal, ZERO_BITS, square_add_fn);
    finish_fn(sum, signal.len())
}

/// Largest absolute sample value: folds `abs_max_fn` (maximum of the
/// accumulator and the sample's absolute value) over the signal from negative
/// infinity. An empty signal therefore returns negative infinity — the fold
/// identity is never overridden — unlike the other three statistics.
pub fn calculate_max_amplitude<F: Fn(u64, u64) -> u64>(signal: &Vec<u64>, abs_max_fn: F) -> (r: u64)
    requires
        forall|acc: u64, x: u64| call_requires(abs_max_fn, (acc, x)),
    ensures
        exists|accs: Seq<u64>| fold_chain(abs_max_fn, signal@, NEG_INFINITY_BITS, accs, r),
        signal@.len() == 0 ==> r == NEG_INFINITY_BITS,
{
    fold_samples(signal, NEG_INFINITY_BITS, abs_max_fn)
}

/// Arithmetic mean: folds `sum_fn` (scalar addition) over the signal from
/// `+0.0`, then applies `finish_fn` (divide by the length) to the sum. An
/// empty signal returns `+0.0` by an explicit guard.
pub fn calculate_mean<FA: Fn(u64, u64) -> u64, FD: Fn(u64, usize) -> u64>(
    signal: &Vec<u64>,
    sum_fn: FA,
    finish_fn: FD,
) -> (r: u64)
    requires
        forall|acc: u64, x: u64| call_requires(sum_fn, (acc, x)),
        forall|sum: u64, n: usize| call_requires(finish_fn, (sum, n)),
    ensures
        signal@.len() == 0 ==> r == ZERO_BITS,
        signal@.len() > 0 ==> exists|accs: Seq<u64>, sum: u64|
            fold_chain(sum_fn, signal@, ZERO_BITS, accs, sum) && call_ensures(
                finish_fn,
                (sum, (signal@.len() as usize)),
                r,
            ),
{
    if signal.len() == 0 {
        return ZERO_BITS;
    }
    let sum = fold_samples(signal, ZERO_BITS, sum_fn);
    finish_fn(sum, signal.len())
}

/// Peak-to-peak span: folds `max_fn` from negative infinity and `min_fn`
/// from positive infinity over the signal, then applies `diff_fn`
/// (subtraction) to the two extremes. An empty signal returns `+0.0` by an
/// explicit guard — unlike `calculate_max_amplitude`.
pub fn calculate_peak_to_peak<FX: Fn(u64, u64) -> u64, FN: Fn(u64, u64) -> u64, FD: Fn(
    u64,
    u64,
) -> u64>(
    signal: &Vec<u64>,
    max_fn: FX,
    min_fn: FN,
    diff_fn: FD,
) -> (r: u64)
    requires
        forall|acc: u64, x: u64| call_requires(max_fn, (acc, x)),
        forall|acc: u64, x: u64| call_requires(min_fn, (acc, x)),
        forall|hi: u64, lo: u64| call_requires(diff_fn, (hi, lo)),
    ensures
        signal@.len() == 0 ==> r == ZERO_BITS,
        signal@.len() > 0 ==> exists|max_accs: Seq<u64>, min_accs: Seq<u64>, hi: u64, lo: u64|
            fold_chain(max_fn, signal@, NEG_INFINITY_BITS, max_accs, hi) && fold_chain(
                min_fn,
                signal@,
                INFINITY_BITS,
                min_accs,
                lo,
            ) && call_ensures(diff_fn, (hi, lo), r),
{
    if signal.len() == 0 {
        return ZERO_BITS;
    }
    let hi = fold_samples(signal, NEG_INFINITY_BITS, max_fn);
    let lo = fold_samples(signal, INFINITY_BITS, min_fn);
    diff_fn(hi, lo)
}

} // verus!
