//! The ways in which a run can fail.

use vstd::prelude::*;

verus! {

/// Why the assembly of the database stopped. Each of these ends the run.
#[derive(Debug, Clone, PartialEq, Eq)]
pub enum PipelineError {
    /// The dump lacks a field that every class or property must have.
    SourceMalformed,
    /// A hand-written correction names a class, or a property of a class,
    /// that the baseline does not define. `property_name` is `None` where the
    /// class itself is unknown.
    PatchTargetMissing { class_name: String, property_name: Option<String> },
    /// The message at position `index` of those that the live host sent could
    /// not be decoded; `payload` holds its bytes as they came.
    ProtocolViolation { index: usize, payload: Vec<u8> },
    /// The database breaks one of its structural invariants.
    ValidationFailed,
}

} // verus!
