//! Detection of the P-core / E-core split on a hybrid x86 CPU.
//!
//! The library classifies each logical CPU index as a performance (P) or an
//! efficiency (E) core and reports the result as a contiguous partition of
//! the index domain.  Reading the hardware registers and pinning probe
//! processes to individual CPUs is left to the surrounding application; the
//! library holds the classification, aggregation and formatting logic.

use vstd::prelude::*;

pub mod detect;
pub mod labels;
pub mod layout;
pub mod oracle;
pub mod text;

pub use detect::DetectionPlan;
pub use detect::ProbeOutcome;
pub use labels::CoreType;
pub use layout::CorePELayout;
pub use layout::CoreRange;

verus! {

/// Errors that a partition request can end in.
#[derive(Debug, Clone, Copy, PartialEq, Eq, Structural)]
pub enum CoreTypeFetchError {
    /// A probed core reported a type that is neither P nor E.
    UnknownCoreType,
    /// The external CPU-pinning utility could not be launched or awaited.
    TasksetFailure,
    /// The CPU does not expose heterogeneous core types at all.
    NotHybridCPU,
}

} // verus!
