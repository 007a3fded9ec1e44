use paper_index::error::ErrorKind;
use paper_index::search::{extract_rows, DistanceColumn, ResultBatch};

fn texts(values: &[&str]) -> Option<Vec<String>> {
    Some(values.iter().map(|s| s.to_string()).collect())
}

#[test]
fn rows_are_read_in_the_order_of_the_batch() {
    let batch = ResultBatch {
        ids: texts(&["c", "a", "b"]),
        texts: texts(&["third", "first", "second"]),
        distances: DistanceColumn::Values(vec![0, 1065353216, 1073741824]),
    };
    let hits = extract_rows(&batch).unwrap();
    assert_eq!(hits.len(), 3);
    assert_eq!(hits[0].id, "c");
    assert_eq!(hits[0].text, "third");
    assert_eq!(hits[0].distance, 0);
    assert_eq!(hits[1].id, "a");
    assert_eq!(f32::from_bits(hits[1].distance), 1.0);
    assert_eq!(hits[2].text, "second");
    assert_eq!(f32::from_bits(hits[2].distance), 2.0);
}

#[test]
fn an_empty_batch_has_no_rows() {
    let batch =
        ResultBatch { ids: texts(&[]), texts: texts(&[]), distances: DistanceColumn::Values(vec![]) };
    assert!(extract_rows(&batch).unwrap().is_empty());
}

fn message_of(batch: ResultBatch) -> String {
    let error = extract_rows(&batch).unwrap_err();
    assert_eq!(error.kind, ErrorKind::Query);
    error.message
}

#[test]
fn the_first_unreadable_column_is_reported() {
    let nothing = ResultBatch { ids: None, texts: None, distances: DistanceColumn::Missing };
    assert_eq!(message_of(nothing), "Failed to downcast id column");

    let no_texts = ResultBatch { ids: texts(&["a"]), texts: None, distances: DistanceColumn::Missing };
    assert_eq!(message_of(no_texts), "Failed to downcast text column");

    let no_distances =
        ResultBatch { ids: texts(&["a"]), texts: texts(&["x"]), distances: DistanceColumn::Missing };
    assert_eq!(message_of(no_distances), "No distance column");

    let mistyped =
        ResultBatch { ids: texts(&["a"]), texts: texts(&["x"]), distances: DistanceColumn::Mistyped };
    assert_eq!(message_of(mistyped), "Failed to downcast distance column");
}

#[test]
fn columns_of_differing_length_are_refused() {
    let short_texts = ResultBatch {
        ids: texts(&["a", "b"]),
        texts: texts(&["x"]),
        distances: DistanceColumn::Values(vec![0, 0]),
    };
    assert_eq!(message_of(short_texts), "Result columns differ in length");

    let long_distances = ResultBatch {
        ids: texts(&["a"]),
        texts: texts(&["x"]),
        distances: DistanceColumn::Values(vec![0, 0]),
    };
    assert_eq!(message_of(long_distances), "Result columns differ in length");
}
