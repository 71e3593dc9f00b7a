use learn_model_with_linear_regression_api::unit_mapping::{to_original_exponents, to_scaled_exponents};

fn apply(coefficients: &[f64], exponents: &[i128]) -> Vec<f64> {
    coefficients
        .iter()
        .zip(exponents.iter())
        .map(|(c, e)| c * 10.0_f64.powi(*e as i32))
        .collect()
}

/// The two directions have to compose back to where they started, or a
/// resumed run would drift away from the point it stopped at.
#[test]
fn round_trip_returns_the_original_coefficients() {
    let ratios: Vec<usize> = vec![2, 0, 1, 6];
    let original = vec![386.9, -210.6, 42.5, 764.9];

    let scaled = apply(&original, &to_scaled_exponents(&ratios));
    let there_and_back = apply(&scaled, &to_original_exponents(&ratios));

    for (before, after) in original.iter().zip(there_and_back.iter()) {
        assert!((before - after).abs() < 1e-9, "{before} became {after}");
    }
}

/// A model fitted in scaled space has to predict the same value as its
/// mapped-back twin does on the unscaled sample.
#[test]
fn mapped_coefficients_predict_the_same_value() {
    let ratios: Vec<usize> = vec![2, 0, 4];
    let sample = [110.0, 3.0];
    let scaled_sample = [110.0 / 100.0, 3.0];
    let scaled_coefficients = [1.5, 0.25, 0.75];

    let scaled_prediction: f64 = scaled_coefficients[0] * scaled_sample[0]
        + scaled_coefficients[1] * scaled_sample[1]
        + scaled_coefficients[2];

    let original = apply(&scaled_coefficients, &to_original_exponents(&ratios));
    let prediction: f64 = original[0] * sample[0] + original[1] * sample[1] + original[2];

    let lifted = scaled_prediction * 10.0_f64.powi(ratios[2] as i32);

    assert!((lifted - prediction).abs() < 1e-6, "{lifted} vs {prediction}");
}

#[test]
fn original_exponents_pair_the_bias_with_the_outputs_exponent() {
    let ratios: Vec<usize> = vec![4, 0, 3];
    assert_eq!(to_original_exponents(&ratios), vec![-1, 3, 3]);
}

#[test]
fn scaled_exponents_negate_the_original_ones() {
    let ratios: Vec<usize> = vec![4, 0, 3];
    assert_eq!(to_scaled_exponents(&ratios), vec![1, -3, -3]);
}

#[test]
fn a_model_without_features_lifts_only_the_bias() {
    let ratios: Vec<usize> = vec![5];
    assert_eq!(to_original_exponents(&ratios), vec![5]);
    assert_eq!(to_scaled_exponents(&ratios), vec![-5]);
}

#[test]
fn round_trip_exponents_cancel_in_every_slot() {
    let ratios: Vec<usize> = vec![7, 1, 0, 2];
    let up = to_original_exponents(&ratios);
    let down = to_scaled_exponents(&ratios);
    for (u, d) in up.iter().zip(down.iter()) {
        assert_eq!(u + d, 0);
    }
}

#[test]
fn huge_ratios_give_exact_exponents() {
    let ratios: Vec<usize> = vec![usize::MAX, 0];
    assert_eq!(to_original_exponents(&ratios), vec![-(usize::MAX as i128), 0]);
}
