//! The rejection-inversion Zipf sampler.
//!
//! The sampler of this module follows the rejection-inversion method for
//! monotone discrete distributions (Hoermann & Derflinger, 1996): the caller
//! precomputes a handful of scalar constants from the skew exponent, the
//! start offset and the upper support bound, and each draw runs an
//! accept/reject loop with an expected O(1) number of iterations.
//!
//! The scalar arithmetic of that method (powers, logarithms, exponentials)
//! is real-valued and lives with the caller. What the sampler itself decides
//! — which parameters are rejected at construction, and whether an iteration
//! accepts its candidate — is decided here, over *order keys*: unsigned
//! integers whose ordering agrees with the ordering of the real values they
//! stand for. Keys use the usual order-preserving integer encoding of
//! binary64 values (non-negative values keep their bit pattern with the sign
//! bit set, negative values are bitwise complemented), under which the value
//! one has the key [`ONE_KEY`].

use vstd::prelude::*;

verus! {

/// The order key of the value one. The constructor validates the skew
/// exponent and the start offset by comparing their keys against this
/// constant.
pub const ONE_KEY: u64 = 0xBFF0_0000_0000_0000;

/// An error raised when the rejection-inversion constructor rejects a
/// parameter. Construction is the only fallible operation: sampling itself
/// has no error path.
#[derive(Clone, Copy, Debug, PartialEq, Eq, Structural)]
pub enum ZipfError {
    /// The skew exponent was not strictly greater than one.
    InvalidExponent,
    /// The start offset was below one.
    InvalidStart,
    /// Reserved for an out-of-range upper support bound; no validation path
    /// currently raises it.
    InvalidMax,
}

impl ZipfError {
    /// A human-readable description of the error.
    pub fn message(&self) -> (m: &'static str)
        ensures
            m@ == match *self {
                ZipfError::InvalidExponent => "Exponent must be greater than 1"@,
                ZipfError::InvalidStart => "Start must be >= 1"@,
                ZipfError::InvalidMax => "Invalid max"@,
            },
    {
        match self {
            ZipfError::InvalidExponent => "Exponent must be greater than 1",
            ZipfError::InvalidStart => "Start must be >= 1",
            ZipfError::InvalidMax => "Invalid max",
        }
    }
}

/// The decision one iteration of the sampling loop takes, given the
/// sampler's squeeze threshold and the keys of the quantities the iteration
/// computed: the candidate is accepted either by the squeeze test (the gap
/// between the candidate and its real-valued preimage falls below the
/// threshold) or by the full acceptance test (the scaled draw reaches the
/// acceptance bound); otherwise the loop draws again.
pub open spec fn step_decision(squeeze: u64, k: u64, gap: u64, ur: u64, bound: u64) -> Option<u64> {
    if gap < squeeze {
        Some(k)
    } else if ur >= bound {
        Some(k)
    } else {
        None
    }
}

/// A fast Zipf distribution generator.
///
/// The generator is built from a skew exponent and a start offset; the
/// exponent must be strictly greater than one and the start at least one.
/// Increasing the exponent reduces the likelihood of larger return values,
/// increasing the start raises it. After construction the generator is
/// immutable: it holds the squeeze threshold its accept/reject decisions
/// compare against.
#[derive(Clone, Copy, Debug)]
pub struct ZipfFast {
    squeeze: u64,
}

impl ZipfFast {
    /// The key of the squeeze threshold (one minus the skew exponent) the
    /// sampler was built with.
    pub closed spec fn squeeze_key(self) -> u64 {
        self.squeeze
    }

    /// Validates the parameters and builds the generator.
    ///
    /// `exponent` and `start` are the keys of the skew exponent and the
    /// start offset; `squeeze` is the key of one minus the exponent, the
    /// threshold of the squeeze test. An exponent at or below one is
    /// rejected first, then a start below one; any other parameters are
    /// accepted.
    pub fn new(exponent: u64, start: u64, squeeze: u64) -> (r: Result<ZipfFast, ZipfError>)
        ensures
            exponent <= ONE_KEY ==> r == Err::<ZipfFast, ZipfError>(ZipfError::InvalidExponent),
            exponent > ONE_KEY && start < ONE_KEY ==> r == Err::<ZipfFast, ZipfError>(
                ZipfError::InvalidStart,
            ),
            exponent > ONE_KEY && start >= ONE_KEY ==> (r matches Ok(z) && z.squeeze_key()
                == squeeze),
    {
        if exponent <= ONE_KEY {
            return Err(ZipfError::InvalidExponent);
        }
        if start < ONE_KEY {
            return Err(ZipfError::InvalidStart);
        }
        Ok(ZipfFast { squeeze })
    }

    /// Decides one iteration of the sampling loop.
    ///
    /// The caller draws a uniform value, scales it into the distribution's
    /// range, inverts the cumulative approximation, and hands over the keys
    /// of what it computed: `k` is the candidate index, `gap` the key of the
    /// candidate minus its real-valued preimage, `ur` the key of the scaled
    /// draw, and `bound` the key of the acceptance bound at the candidate.
    /// The result is the accepted candidate, or nothing when the caller must
    /// draw again. An accepted value is always the candidate itself: the
    /// step never substitutes another index.
    pub fn sample_step(&self, k: u64, gap: u64, ur: u64, bound: u64) -> (r: Option<u64>)
        ensures
            r == step_decision(self.squeeze_key(), k, gap, ur, bound),
            r matches Some(v) ==> v == k,
    {
        if gap < self.squeeze {
            Some(k)
        } else if ur >= bound {
            Some(k)
        } else {
            None
        }
    }
}

/// The decisions a whole run of the sampling loop takes: one decision for
/// each iteration's record of keys, in order.
pub open spec fn step_decisions(squeeze: u64, iters: Seq<(u64, u64, u64, u64)>) -> Seq<
    Option<u64>,
> {
    iters.map_values(|t: (u64, u64, u64, u64)| step_decision(squeeze, t.0, t.1, t.2, t.3))
}

/// Law: the sampler is deterministic. Feeding the same sequence of iteration
/// records (the quantities derived from the same uniform draws) to the same
/// sampler twice yields identical decision sequences — sampling is a pure
/// function of the sampler's constants and the drawn values.
pub proof fn lemma_sampling_deterministic(
    squeeze: u64,
    iters1: Seq<(u64, u64, u64, u64)>,
    iters2: Seq<(u64, u64, u64, u64)>,
)
    requires
        iters1 == iters2,
    ensures
        step_decisions(squeeze, iters1) == step_decisions(squeeze, iters2),
{
}

} // verus!
