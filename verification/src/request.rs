//! Request builder: validates raw (texts, labels) input into an engine-ready
//! request before any inference work happens.

use vstd::prelude::*;
use crate::errors::{EmptyField, PipelineError};

verus! {

/// An engine-ready inference request: the texts to analyze and the entity
/// classes to search for. Meaningful only when built through
/// [`build_text_input`], which guarantees [`TextInput::valid`].
#[derive(Debug, Clone)]
pub struct TextInput {
    /// The text sequences to be analyzed, in caller order.
    pub texts: Vec<String>,
    /// The entity classes to look for, in caller order.
    pub entities: Vec<String>,
}

impl TextInput {
    /// A request is valid when both sequences are non-empty. Element content
    /// is unconstrained: empty strings and duplicates are the engine's concern.
    pub open spec fn valid(self) -> bool {
        self.texts@.len() > 0 && self.entities@.len() > 0
    }
}

/// Validates and normalizes raw input into a [`TextInput`].
///
/// Succeeds exactly when both sequences are non-empty, moving both through
/// unchanged; otherwise rejects the input, naming the offending sequence
/// (`texts` is checked first). Pure: no engine resource is touched.
pub fn build_text_input(texts: Vec<String>, labels: Vec<String>) -> (r: Result<
    TextInput,
    PipelineError,
>)
    ensures
        texts@.len() == 0 ==> (r matches Err(e) && e == PipelineError::InvalidInput(
            EmptyField::Texts,
        )),
        texts@.len() > 0 && labels@.len() == 0 ==> (r matches Err(e) && e
            == PipelineError::InvalidInput(EmptyField::Labels)),
        texts@.len() > 0 && labels@.len() > 0 ==> (r matches Ok(t) && t.texts == texts && t.entities
            == labels && t.valid()),
{
    if texts.len() == 0 {
        Err(PipelineError::InvalidInput(EmptyField::Texts))
    } else if labels.len() == 0 {
        Err(PipelineError::InvalidInput(EmptyField::Labels))
    } else {
        Ok(TextInput { texts, entities: labels })
    }
}

} // verus!
