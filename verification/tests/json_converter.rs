use learn_model_with_linear_regression_api::json_converter::{
    validate, JsonConverterError, TrainingShape,
};

fn shape(lengths: &[usize], outputs: usize) -> TrainingShape {
    TrainingShape { sample_lengths: lengths.to_vec(), output_count: outputs }
}

#[test]
fn a_consistent_set_is_accepted() {
    assert!(validate(&shape(&[2, 2, 2, 2, 2, 2], 6)).is_ok());
}

#[test]
fn an_empty_set_is_refused() {
    let err = validate(&shape(&[], 0)).unwrap_err();
    assert!(matches!(err, JsonConverterError::EmptyDataSet));
    assert_eq!(err.message(), "\"inputs\" is empty, there is nothing to train on");
}

#[test]
fn an_empty_set_is_refused_before_the_counts_are_compared() {
    assert!(matches!(validate(&shape(&[], 3)), Err(JsonConverterError::EmptyDataSet)));
}

#[test]
fn a_count_mismatch_is_refused() {
    let err = validate(&shape(&[2, 2], 3)).unwrap_err();
    assert!(matches!(err, JsonConverterError::SampleCountMismatch { inputs: 2, outputs: 3 }));
    assert_eq!(err.message(), "sample count mismatch: 2 input sample(s) but 3 output(s)");
}

#[test]
fn the_first_ragged_sample_is_reported() {
    let err = validate(&shape(&[2, 2, 3, 1], 4)).unwrap_err();
    assert!(matches!(
        err,
        JsonConverterError::RaggedSample { index: 2, expected: 2, found: 3 }
    ));
    assert_eq!(err.message(), "sample 2 has 3 feature(s) while the first sample has 2");
}

#[test]
fn a_parse_error_converts_and_keeps_its_description() {
    let parse_error = serde_json::from_str::<serde_json::Value>("{").unwrap_err();
    let detail = parse_error.to_string();
    let err = JsonConverterError::from(parse_error);
    assert!(matches!(err, JsonConverterError::Json(_)));
    assert_eq!(err.message(), format!("invalid JSON payload: {detail}"));
}
