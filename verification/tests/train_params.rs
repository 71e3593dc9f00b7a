use learn_model_with_linear_regression_api::train_params::{
    default_loop_count, TrainParams, TrainParamsError, MAX_LOOP_COUNT,
};

fn params(learning_rate: f64, loop_count: usize) -> TrainParams {
    TrainParams { learning_rate_bits: learning_rate.to_bits(), loop_count }
}

#[test]
fn default_loop_count_is_twenty_thousand() {
    assert_eq!(default_loop_count(), 20_000);
}

#[test]
fn defaults_pass_validation() {
    assert!(params(0.003, default_loop_count()).validate().is_ok());
}

#[test]
fn bounds_of_loop_count_are_accepted() {
    assert!(params(0.01, 1).validate().is_ok());
    assert!(params(0.01, MAX_LOOP_COUNT).validate().is_ok());
}

#[test]
fn unusable_learning_rates_are_refused() {
    for lr in [0.0, -0.0, -0.5, f64::NAN, f64::INFINITY, f64::NEG_INFINITY] {
        assert!(matches!(params(lr, 10).validate(), Err(TrainParamsError::LearningRate)), "{lr}");
    }
}

#[test]
fn tiny_positive_learning_rates_are_accepted() {
    assert!(params(f64::MIN_POSITIVE, 10).validate().is_ok());
    assert!(params(f64::from_bits(1), 10).validate().is_ok());
    assert!(params(f64::MAX, 10).validate().is_ok());
}

#[test]
fn learning_rate_is_checked_before_loop_count() {
    assert!(matches!(params(-1.0, 0).validate(), Err(TrainParamsError::LearningRate)));
}

#[test]
fn zero_loop_count_is_refused() {
    let err = params(0.01, 0).validate().unwrap_err();
    assert!(matches!(err, TrainParamsError::LoopCountZero));
    assert_eq!(err.status(), 400);
    assert_eq!(err.message("0.01"), "loop_count must be at least 1");
}

#[test]
fn loop_count_above_the_cap_is_refused() {
    let err = params(0.01, 1_000_001).validate().unwrap_err();
    assert!(matches!(err, TrainParamsError::LoopCountTooLarge { got: 1_000_001 }));
    assert_eq!(err.message("0.01"), "loop_count must not exceed 1000000, got 1000001");
}

#[test]
fn learning_rate_message_quotes_the_value() {
    let err = params(-2.5, 5).validate().unwrap_err();
    assert_eq!(err.status(), 400);
    assert_eq!(
        err.message(&(-2.5_f64).to_string()),
        "learning_rate must be a finite number greater than 0, got -2.5"
    );
}
