//! Discrete time-axis generation and pointwise sinusoid evaluation.
//!
//! The time axis is the sequence `t[n] = n / fs` and a signal is
//! `x[n] = amplitude * sin(2*pi*frequency*t[n] + phase)` (or the cosine
//! variant). The scalar evaluations are floating-point and are supplied by
//! the caller as closures over `u64` IEEE-754 double bit patterns; this
//! module verifies that the sequences have exactly the requested shape and
//! that every element is an output the closure admits for its index or time
//! point. Nothing here validates the sampling rate: a closure that divides
//! by zero simply yields the non-finite bit patterns it yields, and they are
//! propagated as-is.

use vstd::prelude::*;

verus! {

/// Produces the time axis of the requested length: element `n` is an output
/// the closure `tick_fn` (intended: `n / fs`) admits for index `n`.
/// The length is exactly `samples`; length 0 yields the empty sequence.
pub fn generate_time_vector<F: Fn(usize) -> u64>(samples: usize, tick_fn: F) -> (t: Vec<u64>)
    requires
        forall|n: usize| n < samples ==> call_requires(tick_fn, (n,)),
    ensures
        t@.len() == samples,
        forall|n: int| 0 <= n < samples ==> call_ensures(tick_fn, ((n as usize),), #[trigger] t@[n]),
{
    let mut t: Vec<u64> = Vec::new();
    let mut i: usize = 0;
    while i < samples
        invariant
            forall|n: usize| n < samples ==> call_requires(tick_fn, (n,)),
            i <= samples,
            t@.len() == i,
            forall|n: int| 0 <= n < i ==> call_ensures(tick_fn, ((n as usize),), #[trigger] t@[n]),
        decreases samples - i,
    {
        t.push(tick_fn(i));
        i += 1;
    }
    t
}

/// Evaluates a sine wave over a time axis: element `n` is an output the
/// closure `wave_fn` (intended: `amplitude * sin(2*pi*frequency*t + phase)`,
/// with the three parameters captured inside it) admits for `time[n]`.
/// Order and length of the time axis are preserved.
pub fn generate_signal<F: Fn(u64) -> u64>(time: &Vec<u64>, wave_fn: F) -> (x: Vec<u64>)
    requires
        forall|n: int| 0 <= n < time@.len() ==> call_requires(wave_fn, (#[trigger] time@[n],)),
    ensures
        x@.len() == time@.len(),
        forall|n: int| 0 <= n < time@.len() ==> call_ensures(wave_fn, (time@[n],), #[trigger] x@[n]),
{
    let mut x: Vec<u64> = Vec::new();
    let mut i: usize = 0;
    while i < time.len()
        invariant
            forall|n: int| 0 <= n < time@.len() ==> call_requires(wave_fn, (#[trigger] time@[n],)),
            i <= time@.len(),
            x@.len() == i,
            forall|n: int| 0 <= n < i ==> call_ensures(wave_fn, (time@[n],), #[trigger] x@[n]),
        decreases time@.len() - i,
    {
        x.push(wave_fn(time[i]));
        i += 1;
    }
    x
}

/// The cosine variant of `generate_signal`, under the same contract: element
/// `n` is an output the closure (intended: `amplitude * cos(...)`) admits for
/// `time[n]`. Provided as part of the public surface even though the request
/// pipeline itself only uses the sine variant.
pub fn generate_cosine_signal<F: Fn(u64) -> u64>(time: &Vec<u64>, wave_fn: F) -> (x: Vec<u64>)
    requires
        forall|n: int| 0 <= n < time@.len() ==> call_requires(wave_fn, (#[trigger] time@[n],)),
    ensures
        x@.len() == time@.len(),
        forall|n: int| 0 <= n < time@.len() ==> call_ensures(wave_fn, (time@[n],), #[trigger] x@[n]),
{
    let mut x: Vec<u64> = Vec::new();
    let mut i: usize = 0;
    while i < time.len()
        invariant
            forall|n: int| 0 <= n < time@.len() ==> call_requires(wave_fn, (#[trigger] time@[n],)),
            i <= time@.len(),
            x@.len() == i,
            forall|n: int| 0 <= n < i ==> call_ensures(wave_fn, (time@[n],), #[trigger] x@[n]),
        decreases time@.len() - i,
    {
        x.push(wave_fn(time[i]));
        i += 1;
    }
    x
}

} // verus!
