//! The consistency check the regression model runs on the data it is built
//! from, and the sizes it derives from that data.
//!
//! The model itself computes in floating point and lives outside this crate;
//! what its constructor checks, and refuses by panicking, depends only on the
//! lengths of the vectors it is handed.

use vstd::prelude::*;
use crate::json_converter::usable_shape;

verus! {

/// Why the model refuses a data set.
#[derive(Debug)]
pub enum ModelShapeError {
    /// There are not as many outputs as there are input samples.
    SampleCountMismatch,
    /// There are no samples at all, so no feature count can be read.
    NoSamples,
    /// The coefficient vector is not one weight per feature plus the bias.
    CoefficientCountMismatch,
}

/// The sizes the model derives: `m` samples of `n` features each.
#[derive(Debug)]
pub struct ModelShape {
    pub m: usize,
    pub n: usize,
}

/// What [`validate_data_set`] decides for a data set whose samples have the
/// widths `sample_lengths`, with `output_count` outputs and
/// `coefficient_count` coefficients. The feature count is read from the first
/// sample only.
pub open spec fn data_set_verdict(
    sample_lengths: Seq<usize>,
    output_count: usize,
    coefficient_count: usize,
) -> Result<ModelShape, ModelShapeError> {
    if sample_lengths.len() != output_count {
        Err(ModelShapeError::SampleCountMismatch)
    } else if sample_lengths.len() == 0 {
        Err(ModelShapeError::NoSamples)
    } else if sample_lengths[0] + 1 != coefficient_count {
        Err(ModelShapeError::CoefficientCountMismatch)
    } else {
        Ok(ModelShape { m: sample_lengths.len() as usize, n: sample_lengths[0] })
    }
}

/// Checks that the inputs, the outputs and the starting coefficients describe
/// one consistent model, and derives its sample count `m` and feature count
/// `n`.
///
/// Rows of differing width are not caught here: `n` is the width of the first
/// sample.
pub fn validate_data_set(
    sample_lengths: &Vec<usize>,
    output_count: usize,
    coefficient_count: usize,
) -> (res: Result<ModelShape, ModelShapeError>)
    ensures
        res == data_set_verdict(sample_lengths@, output_count, coefficient_count),
{
    let m = sample_lengths.len();
    if m != output_count {
        return Err(ModelShapeError::SampleCountMismatch);
    }
    if m == 0 {
        return Err(ModelShapeError::NoSamples);
    }
    let n = sample_lengths[0];
    if coefficient_count == 0 || n != coefficient_count - 1 {
        return Err(ModelShapeError::CoefficientCountMismatch);
    }
    Ok(ModelShape { m, n })
}

/// The text the model's constructor panics with for each refusal.
pub open spec fn model_shape_error_text(err: ModelShapeError) -> Seq<char> {
    match err {
        ModelShapeError::SampleCountMismatch =>
            "Real Inputs and Output Sample size (m) not equal !!"@,
        ModelShapeError::NoSamples => "index out of bounds: the len is 0 but the index is 0"@,
        ModelShapeError::CoefficientCountMismatch =>
            "Feature count (n) and a real input sample size (n) not equal !!"@,
    }
}

impl ModelShapeError {
    /// The text the model panics with when it refuses a data set for this
    /// reason.
    pub fn message(&self) -> (text: String)
        ensures
            text@ == model_shape_error_text(*self),
    {
        match self {
            ModelShapeError::SampleCountMismatch => String::from_str(
                "Real Inputs and Output Sample size (m) not equal !!",
            ),
            ModelShapeError::NoSamples => String::from_str(
                "index out of bounds: the len is 0 but the index is 0",
            ),
            ModelShapeError::CoefficientCountMismatch => String::from_str(
                "Feature count (n) and a real input sample size (n) not equal !!",
            ),
        }
    }
}

/// A training set that passed the JSON validation never makes the model's
/// constructor panic: given one weight per feature of the first sample plus
/// the bias, the model accepts it, with one sample per input and the first
/// sample's width as its feature count.
pub proof fn lemma_validated_set_builds_model(sample_lengths: Seq<usize>, output_count: usize)
    requires
        usable_shape(sample_lengths, output_count),
        sample_lengths[0] < usize::MAX,
    ensures
        data_set_verdict(sample_lengths, output_count, (sample_lengths[0] + 1) as usize) == Ok::<
            ModelShape,
            ModelShapeError,
        >(ModelShape { m: sample_lengths.len() as usize, n: sample_lengths[0] }),
{
}

/// The starting coefficients the handler builds from the feature count the
/// scaler reported, one more than that count and checked against the number
/// of ratios, reach the constructor at the right length: a usable data set of
/// that width and a ratio count that passed the check give a model.
pub proof fn lemma_checked_ratio_count_builds_model(
    sample_lengths: Seq<usize>,
    output_count: usize,
    ratio_count: usize,
)
    requires
        usable_shape(sample_lengths, output_count),
        ratio_count == sample_lengths[0] + 1,
    ensures
        data_set_verdict(sample_lengths, output_count, ratio_count) is Ok,
        data_set_verdict(sample_lengths, output_count, ratio_count)->Ok_0.n + 1 == ratio_count,
{
}

} // verus!
