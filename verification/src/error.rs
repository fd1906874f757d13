//! The error taxonomy of the selector.

use vstd::prelude::*;

verus! {

/// Why a selection could not be made.
///
/// `InvalidInput` is fatal to the call and reports an empty candidate list.
/// `DistributionConstructionError` reports a history weight that was not a
/// non-negative finite number, so no priority distribution could be built
/// from it.  `SamplingError` reports a degenerate weight vector or an
/// out-of-range draw; it is surfaced rather than silently degraded to an
/// arbitrary default choice.
#[derive(Clone, Copy, Debug, PartialEq, Eq, Structural)]
pub enum ChooseError {
    InvalidInput,
    DistributionConstructionError,
    SamplingError,
}

/// A history line that could not be trimmed: it does not consist of a
/// leading word, white space, and a remainder.  The offending line is
/// carried along so that the caller can report it.
#[derive(Clone, Debug, PartialEq, Eq)]
pub struct TrimError {
    pub line: String,
}

} // verus!
