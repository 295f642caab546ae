//! Inference invoker, result side: the engine call itself happens in the
//! unverified shell, which hands its raw outcome — either the per-text span
//! sequences or the engine's message text — to these functions. They carry a
//! prediction from that point to the host-facing records, with uniform error
//! semantics: an engine failure becomes [`PipelineError::InferenceFailed`]
//! carrying the message verbatim, and a successful outcome is projected
//! structurally, never re-ordered or filtered.

use vstd::prelude::*;
use crate::errors::PipelineError;
use crate::projection::{
    batch_projection_of, project_batch, project_single_from_batch, projection_of, Record, Span,
};

verus! {

/// Completes a batch prediction from the engine's raw outcome: a failure
/// message becomes [`PipelineError::InferenceFailed`] verbatim; span
/// sequences are projected element-wise, preserving batch-to-text alignment.
pub fn complete_batch(outcome: Result<Vec<Vec<Span>>, String>) -> (r: Result<
    Vec<Vec<Record>>,
    PipelineError,
>)
    ensures
        outcome matches Err(m) ==> (r matches Err(e) && e == PipelineError::InferenceFailed(m)),
        outcome matches Ok(b) ==> (r matches Ok(rb) && batch_projection_of(rb@, b@)),
{
    match outcome {
        Err(message) => Err(PipelineError::InferenceFailed(message)),
        Ok(batch) => Ok(project_batch(&batch)),
    }
}

/// Completes a single-text prediction routed through the batch path: a
/// failure message becomes [`PipelineError::InferenceFailed`] verbatim; an
/// outcome with no first element is the engine returning fewer results than
/// requested texts and becomes [`PipelineError::MissingResult`]; otherwise
/// the first span sequence is projected in order.
pub fn complete_single(outcome: Result<Vec<Vec<Span>>, String>) -> (r: Result<
    Vec<Record>,
    PipelineError,
>)
    ensures
        outcome matches Err(m) ==> (r matches Err(e) && e == PipelineError::InferenceFailed(m)),
        outcome matches Ok(b) ==> ((b@.len() == 0 ==> (r matches Err(e) && e
            == PipelineError::MissingResult)) && (b@.len() > 0 ==> (r matches Ok(recs)
            && projection_of(recs@, b@[0]@)))),
{
    match outcome {
        Err(message) => Err(PipelineError::InferenceFailed(message)),
        Ok(batch) => project_single_from_batch(&batch),
    }
}

} // verus!
