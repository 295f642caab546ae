//! A named-entity-recognition boundary adapter: validation and
//! result-transformation pipeline around an opaque NER inference engine.
//!
//! The pipeline is strictly sequential: a validating request builder, one
//! inference call, and a structural projection of the engine's spans into
//! fixed-shape records. This crate holds the verified core: building and
//! validating requests, translating engine outcomes, and projecting spans.
//! Loading the engine and marshaling records into the host runtime live in
//! the unverified shell around it.

pub mod errors;
pub mod pipeline;
pub mod projection;
pub mod request;

pub use errors::{EmptyField, PipelineError};
pub use pipeline::{complete_batch, complete_single};
pub use projection::{
    project_batch, project_one, project_single_from_batch, span_to_record, Record, Span,
};
pub use request::{build_text_input, TextInput};
