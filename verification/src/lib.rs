//! Random-variate generators for the discrete Zipf distribution over a
//! bounded integer range, parameterized by a skew exponent.
//!
//! Two independent samplers are provided:
//!
//! - [`ZipfFixed`]: precomputes a full cumulative-distribution table and
//!   answers each draw with a binary search over that table.
//! - [`ZipfFast`]: the rejection-inversion method, which precomputes a few
//!   scalar constants and answers each draw with an expected O(1)
//!   accept/reject loop.
//!
//! The numerical precomputation (powers, logarithms, exponentials) is the
//! caller's: it is handed to the samplers as *order keys*, unsigned integers
//! whose ordering agrees with the ordering of the underlying real values.
//! Everything the samplers decide — table validation, the binary search, the
//! parameter checks, the accept/reject step — is decided here, over those
//! keys, and carries a proved contract.

pub mod fast;
pub mod fixed;

pub use fast::ZipfError;
pub use fast::ZipfFast;
pub use fixed::ZipfFixed;
