use gliner_rs_php::{
    project_batch, project_one, project_single_from_batch, span_to_record, PipelineError, Record,
    Span,
};

fn span(sequence: usize, start: usize, end: usize, text: &str, label: &str, score: f32) -> Span {
    Span {
        sequence,
        start,
        end,
        text: text.to_string(),
        label: label.to_string(),
        probability: score.to_bits(),
    }
}

#[test]
fn span_to_record_copies_all_six_fields() {
    let s = span(3, 15, 19, "Acme", "ORG", 0.9f32);

    let record = span_to_record(&s);

    assert_eq!(record.text, "Acme");
    assert_eq!(record.label, "ORG");
    assert_eq!(record.score, 0.9f32.to_bits());
    assert_eq!(f32::from_bits(record.score), 0.9f32);
    assert_eq!(record.start, 15i64);
    assert_eq!(record.end, 19i64);
    assert_eq!(record.sequence, 3i64);
}

#[test]
fn project_one_preserves_order_and_length() {
    let spans = vec![
        span(0, 0, 5, "Alice", "PERSON", 0.98f32),
        span(0, 15, 19, "Acme", "ORG", 0.87f32),
    ];

    let records = project_one(&spans);

    assert_eq!(records.len(), 2);
    assert_eq!(records[0].text, "Alice");
    assert_eq!(records[0].label, "PERSON");
    assert_eq!(records[1].text, "Acme");
    assert_eq!(records[1].label, "ORG");
}

#[test]
fn project_batch_preserves_inner_and_outer_lengths() {
    let batch = vec![
        vec![
            span(0, 0, 5, "Alice", "PERSON", 0.98f32),
            span(0, 15, 19, "Acme", "ORG", 0.87f32),
        ],
        vec![],
        vec![span(2, 4, 9, "Paris", "LOCATION", 0.75f32)],
    ];

    let projected = project_batch(&batch);

    assert_eq!(projected.len(), 3);
    assert_eq!(projected[0].len(), 2);
    assert_eq!(projected[1].len(), 0);
    assert_eq!(projected[2].len(), 1);
}

#[test]
fn project_single_from_batch_empty_fails() {
    let batch: Vec<Vec<Span>> = vec![];

    let result = project_single_from_batch(&batch);

    assert!(matches!(result, Err(PipelineError::MissingResult)));
}

#[test]
fn project_single_from_batch_equals_project_one() {
    let spans = vec![
        span(0, 0, 5, "Alice", "PERSON", 0.98f32),
        span(0, 15, 19, "Acme", "ORG", 0.87f32),
    ];
    let batch = vec![spans.clone()];

    let routed: Vec<Record> = project_single_from_batch(&batch).expect("one element is present");
    let direct: Vec<Record> = project_one(&spans);

    assert_eq!(routed, direct);
}
