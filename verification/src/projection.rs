//! Result projector: walks the engine's per-text, per-span result structure
//! and projects each span into a fixed-shape record, preserving order and
//! batch-to-text alignment exactly.

use vstd::prelude::*;
use crate::errors::PipelineError;

verus! {

/// One detected entity occurrence, as the engine reports it.
///
/// `start` and `end` are the engine's own offsets, passed through verbatim
/// (the engine defines their unit and convention). `sequence` is the 0-based
/// index of the source text within the batch. `probability` holds the
/// IEEE-754 bit pattern of the engine's native 32-bit confidence score; the
/// shell converts from and to a float at the boundary, so the score travels
/// through the pipeline bit-for-bit.
#[derive(Debug, Clone, PartialEq)]
pub struct Span {
    /// Index of the source text within the batch, 0-based.
    pub sequence: usize,
    /// Start offset, engine-defined, passed through verbatim.
    pub start: usize,
    /// End offset, engine-defined, passed through verbatim.
    pub end: usize,
    /// The matched substring.
    pub text: String,
    /// The entity class.
    pub label: String,
    /// Bit pattern of the engine's 32-bit confidence score.
    pub probability: u32,
}

/// The host-facing projection of a [`Span`]: exactly six fields, in this
/// order, with the integer fields widened to 64-bit signed integers so the
/// host sees a stable shape regardless of the engine's native offset width.
/// `score` carries the same score bit pattern as [`Span::probability`].
#[derive(Debug, Clone, PartialEq)]
pub struct Record {
    /// The matched substring.
    pub text: String,
    /// The entity class.
    pub label: String,
    /// Bit pattern of the engine's 32-bit confidence score, unchanged.
    pub score: u32,
    /// Start offset widened to 64 bits.
    pub start: i64,
    /// End offset widened to 64 bits.
    pub end: i64,
    /// Source text index widened to 64 bits.
    pub sequence: i64,
}

/// `r` is the projection of `s`: text, label and score are copied unchanged,
/// and each integer field is the 64-bit image of the span's field.
pub open spec fn record_of_span(r: Record, s: Span) -> bool {
    &&& r.text@ == s.text@
    &&& r.label@ == s.label@
    &&& r.score == s.probability
    &&& r.start == s.start as i64
    &&& r.end == s.end as i64
    &&& r.sequence == s.sequence as i64
}

/// `rs` is the element-wise projection of `ss`: same length, and the record
/// at each index is the projection of the span at that index. No span is
/// dropped, invented, or re-ordered.
pub open spec fn projection_of(rs: Seq<Record>, ss: Seq<Span>) -> bool {
    &&& rs.len() == ss.len()
    &&& forall|i: int| 0 <= i < ss.len() ==> record_of_span(rs[i], ss[i])
}

/// `rb` is the batch-wise projection of `sb`: same outer length, and each
/// inner sequence is the element-wise projection of its counterpart, so
/// batch-to-text alignment is preserved.
pub open spec fn batch_projection_of(rb: Seq<Vec<Record>>, sb: Seq<Vec<Span>>) -> bool {
    &&& rb.len() == sb.len()
    &&& forall|i: int| 0 <= i < sb.len() ==> projection_of(rb[i]@, sb[i]@)
}

/// Projects one span into its record by field-by-field copy, widening the
/// offsets and the sequence index to 64-bit signed integers.
pub fn span_to_record(span: &Span) -> (r: Record)
    ensures
        record_of_span(r, *span),
{
    Record {
        text: span.text.clone(),
        label: span.label.clone(),
        score: span.probability,
        start: #[verifier::truncate] (span.start as i64),
        end: #[verifier::truncate] (span.end as i64),
        sequence: #[verifier::truncate] (span.sequence as i64),
    }
}

/// Widening never truncates for offsets that fit a 64-bit signed integer
/// (in particular, for every offset within the 32-bit range): each integer
/// field of the record has exactly the span's value.
pub proof fn lemma_projection_exact_in_range(r: Record, s: Span)
    requires
        record_of_span(r, s),
        s.start as int <= i64::MAX as int,
        s.end as int <= i64::MAX as int,
        s.sequence as int <= i64::MAX as int,
    ensures
        r.start as int == s.start as int,
        r.end as int == s.end as int,
        r.sequence as int == s.sequence as int,
{
}

/// The projection relation pins its output: any two record sequences that
/// project the same span sequence agree on every field of every record, so
/// a sequence routed through the batch path yields the same records as a
/// direct projection of that sequence.
pub proof fn lemma_projection_determined(a: Seq<Record>, b: Seq<Record>, ss: Seq<Span>)
    requires
        projection_of(a, ss),
        projection_of(b, ss),
    ensures
        a.len() == b.len(),
        forall|i: int|
            0 <= i < a.len() ==> ((#[trigger] a[i]).text@ == b[i].text@ && a[i].label@ == b[i].label@
                && a[i].score == b[i].score && a[i].start == b[i].start && a[i].end == b[i].end
                && a[i].sequence == b[i].sequence),
{
}

/// Projects every span of a single text's result, in order.
pub fn project_one(spans: &Vec<Span>) -> (r: Vec<Record>)
    ensures
        projection_of(r@, spans@),
{
    let mut records: Vec<Record> = Vec::new();
    let mut i: usize = 0;
    while i < spans.len()
        invariant
            i <= spans.len(),
            records@.len() == i,
            forall|j: int| 0 <= j < i ==> record_of_span(records@[j], spans@[j]),
        decreases spans.len() - i,
    {
        records.push(span_to_record(&spans[i]));
        i = i + 1;
    }
    records
}

/// Projects a whole batch result, applying [`project_one`] to every element
/// in order.
pub fn project_batch(batch: &Vec<Vec<Span>>) -> (r: Vec<Vec<Record>>)
    ensures
        batch_projection_of(r@, batch@),
{
    let mut projected: Vec<Vec<Record>> = Vec::new();
    let mut i: usize = 0;
    while i < batch.len()
        invariant
            i <= batch.len(),
            projected@.len() == i,
            forall|j: int| 0 <= j < i ==> projection_of(projected@[j]@, batch@[j]@),
        decreases batch.len() - i,
    {
        projected.push(project_one(&batch[i]));
        i = i + 1;
    }
    projected
}

/// Projects the first (and only expected) element of a batch result, for
/// single-text prediction routed through the batch path.
///
/// An engine that returns no element at index 0 has returned fewer results
/// than requested texts; that contract violation surfaces as
/// [`PipelineError::MissingResult`], never as a silent empty list.
pub fn project_single_from_batch(batch: &Vec<Vec<Span>>) -> (r: Result<Vec<Record>, PipelineError>)
    ensures
        batch@.len() == 0 ==> (r matches Err(e) && e == PipelineError::MissingResult),
        batch@.len() > 0 ==> (r matches Ok(recs) && projection_of(recs@, batch@[0]@)),
{
    if batch.len() == 0 {
        Err(PipelineError::MissingResult)
    } else {
        Ok(project_one(&batch[0]))
    }
}

} // verus!
