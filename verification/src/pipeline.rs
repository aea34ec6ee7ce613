//! The full per-request computation: time axis, two sinusoids, element-wise
//! combination, and the two summary statistics, assembled into one result.
//!
//! The transport layer around this crate deserializes a request into
//! [`SignalParams`], builds the scalar closures from its floating-point
//! fields, calls [`process_signal`], and serializes the [`SignalData`] it
//! gets back. The central invariant — all four sequences of a result have
//! the same length, equal to the requested sample count — is part of
//! `process_signal`'s contract.

use vstd::prelude::*;

use crate::compute::{
    calculate_max_amplitude, calculate_rms, combined_by, fold_chain, perform_operation,
    NEG_INFINITY_BITS, ZERO_BITS,
};
use crate::operation::resolved_operation;
use crate::signal::{generate_signal, generate_time_vector};

verus! {

/// The parameters of one request: amplitude, frequency (Hz) and phase
/// (radians) of each of the two sinusoids, the operation string, the sample
/// count, and the sampling rate (Hz). The real-valued fields are carried as
/// `u64` IEEE-754 double bit patterns; the verified pipeline itself reads
/// only `operation` and `samples`, and the caller realizes the rest inside
/// the scalar closures it supplies.
pub struct SignalParams {
    pub a1: u64,
    pub f1: u64,
    pub phi1: u64,
    pub a2: u64,
    pub f2: u64,
    pub phi2: u64,
    pub operation: String,
    pub samples: usize,
    pub fs: u64,
}

/// The result of one request: the time axis, the two input signals, the
/// combined signal, and the two summary statistics of the combined signal.
/// Sample values are `u64` IEEE-754 double bit patterns. A result is built
/// fresh per request and never mutated.
pub struct SignalData {
    pub t: Vec<u64>,
    pub x1: Vec<u64>,
    pub x2: Vec<u64>,
    pub y: Vec<u64>,
    pub max_amplitude: u64,
    pub rms: u64,
}

impl SignalData {
    /// Shape invariant of a result: all four sequences have the same length.
    pub open spec fn well_formed(&self) -> bool {
        &&& self.x1@.len() == self.t@.len()
        &&& self.x2@.len() == self.t@.len()
        &&& self.y@.len() == self.t@.len()
    }
}

/// Runs the whole pipeline for one request: generates the time axis with
/// `tick_fn`, evaluates the two sinusoids with `wave1_fn` and `wave2_fn`,
/// combines them under the operation `params.operation` selects (falling
/// back to addition on an unrecognized string), and derives the two
/// statistics of the combined signal. All four sequences of the result have
/// length `params.samples`.
pub fn process_signal<FT: Fn(usize) -> u64, F1: Fn(u64) -> u64, F2: Fn(u64) -> u64, FA: Fn(
    u64,
    u64,
) -> u64, FS: Fn(u64, u64) -> u64, FM: Fn(u64, u64) -> u64, FX: Fn(u64, u64) -> u64, FQ: Fn(
    u64,
    u64,
) -> u64, FR: Fn(u64, usize) -> u64>(
    params: &SignalParams,
    tick_fn: FT,
    wave1_fn: F1,
    wave2_fn: F2,
    add_fn: FA,
    sub_fn: FS,
    mul_fn: FM,
    abs_max_fn: FX,
    square_add_fn: FQ,
    rms_finish_fn: FR,
) -> (r: SignalData)
    requires
        forall|n: usize| n < params.samples ==> call_requires(tick_fn, (n,)),
        forall|t: u64| call_requires(wave1_fn, (t,)),
        forall|t: u64| call_requires(wave2_fn, (t,)),
        forall|x: u64, y: u64| call_requires(add_fn, (x, y)),
        forall|x: u64, y: u64| call_requires(sub_fn, (x, y)),
        forall|x: u64, y: u64| call_requires(mul_fn, (x, y)),
        forall|acc: u64, x: u64| call_requires(abs_max_fn, (acc, x)),
        forall|acc: u64, x: u64| call_requires(square_add_fn, (acc, x)),
        forall|sum: u64, n: usize| call_requires(rms_finish_fn, (sum, n)),
    ensures
        r.well_formed(),
        r.t@.len() == params.samples,
        forall|n: int|
            0 <= n < params.samples ==> call_ensures(tick_fn, ((n as usize),), #[trigger] r.t@[n]),
        forall|n: int|
            0 <= n < params.samples ==> call_ensures(wave1_fn, (r.t@[n],), #[trigger] r.x1@[n]),
        forall|n: int|
            0 <= n < params.samples ==> call_ensures(wave2_fn, (r.t@[n],), #[trigger] r.x2@[n]),
        combined_by(
            resolved_operation(params.operation@),
            add_fn,
            sub_fn,
            mul_fn,
            r.x1@,
            r.x2@,
            r.y@,
        ),
        exists|accs: Seq<u64>| fold_chain(abs_max_fn, r.y@, NEG_INFINITY_BITS, accs, r.max_amplitude),
        params.samples == 0 ==> r.max_amplitude == NEG_INFINITY_BITS && r.rms == ZERO_BITS,
        params.samples > 0 ==> exists|accs: Seq<u64>, sum: u64|
            fold_chain(square_add_fn, r.y@, ZERO_BITS, accs, sum) && call_ensures(
                rms_finish_fn,
                (sum, params.samples),
                r.rms,
            ),
{
    let t = generate_time_vector(params.samples, tick_fn);
    let x1 = generate_signal(&t, wave1_fn);
    let x2 = generate_signal(&t, wave2_fn);
    let y = perform_operation(&x1, &x2, params.operation.as_str(), add_fn, sub_fn, mul_fn);
    let ghost y_view = y@;
    let max_amplitude = calculate_max_amplitude(&y, abs_max_fn);
    let rms = calculate_rms(&y, square_add_fn, rms_finish_fn);
    let r = SignalData { t, x1, x2, y, max_amplitude, rms };
    proof {
        let accs = choose|accs: Seq<u64>|
            fold_chain(abs_max_fn, y_view, NEG_INFINITY_BITS, accs, max_amplitude);
        assert(fold_chain(abs_max_fn, r.y@, NEG_INFINITY_BITS, accs, r.max_amplitude));
        if params.samples > 0 {
            let (accs, sum) = choose|accs: Seq<u64>, sum: u64|
                fold_chain(square_add_fn, y_view, ZERO_BITS, accs, sum) && call_ensures(
                    rms_finish_fn,
                    (sum, (y_view.len() as usize)),
                    rms,
                );
            assert(fold_chain(square_add_fn, r.y@, ZERO_BITS, accs, sum));
            assert(call_ensures(rms_finish_fn, (sum, params.samples), r.rms));
        }
    }
    r
}

} // verus!
