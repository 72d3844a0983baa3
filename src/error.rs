//! The ways in which one event or outcome can fail. None of them stops a
//! background task: the event is logged and dropped.
use vstd::prelude::*;

verus! {

#[derive(Clone, Copy, Debug, PartialEq, Eq, Structural)]
pub enum PipelineError {
    /// The capture source produced nothing usable.
    CaptureFailure,
    /// The text extractor failed or timed out.
    ExtractionFailure,
    /// The content generator failed, timed out or returned malformed output.
    GenerationFailure,
    /// The store was unavailable or refused a write.
    PersistenceFailure,
    /// A review outcome names a card that does not exist.
    SchedulingInconsistency { card_id: i64 },
}

} // verus!
