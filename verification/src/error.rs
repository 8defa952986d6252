//! The ways in which an analysis can fail.

use vstd::prelude::*;

verus! {

/// Why an analysis could not be carried out.
#[derive(Debug, Clone, Copy, PartialEq, Eq, Structural)]
pub enum AnalysisError {
    /// The source cannot tell the sample rate of its stream.
    SampleRateUnavailable,
    /// The stream's sample rate is not the one the detector is configured for.
    SampleRateUnsupported,
    /// The source failed while producing samples; no gap list is returned.
    DecodeError,
}

} // verus!
