//! Error taxonomy of the adapter pipeline.
//!
//! Every failure a caller can see is one of these variants; none is ever
//! swallowed or retried inside the library.

use vstd::prelude::*;

verus! {

/// Which input sequence the request builder found empty.
#[derive(Debug, Clone, Copy, PartialEq, Eq, Structural)]
pub enum EmptyField {
    Texts,
    Labels,
}

/// A typed failure of the prediction pipeline.
#[derive(Debug, Clone, PartialEq)]
pub enum PipelineError {
    /// The request builder rejected the raw input; carries which sequence was empty.
    InvalidInput(EmptyField),
    /// The engine's inference call itself failed; carries the engine's message verbatim.
    InferenceFailed(String),
    /// The engine returned fewer result sequences than requested texts.
    MissingResult,
    /// The engine handle could not be built from the given resource paths.
    ConstructionError(String),
}

} // verus!
