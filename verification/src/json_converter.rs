//! Validation of a training set received as JSON, and the errors of the
//! conversion between JSON and the model's vectors.
//!
//! Parsing itself turns the payload into `f64` vectors and happens outside
//! this crate; what the validation reads of the parsed set is its shape, the
//! number of features of each sample and the number of outputs, which is what
//! [`TrainingShape`] holds.

use vstd::prelude::*;
use crate::decimal::{decimal, push_decimal};

verus! {

#[verifier::external_type_specification]
#[verifier::external_body]
pub struct ExJsonError(serde_json::Error);

/// Everything that can go wrong while converting between JSON and the model's
/// vectors.
#[derive(Debug)]
pub enum JsonConverterError {
    /// The text was not valid JSON, or did not match the expected shape.
    Json(serde_json::Error),
    /// `inputs` was empty: there is nothing to train on, and no feature count
    /// can be derived.
    EmptyDataSet,
    /// There are not as many outputs as there are input samples.
    SampleCountMismatch { inputs: usize, outputs: usize },
    /// One sample carries a different number of features than the first one.
    RaggedSample { index: usize, expected: usize, found: usize },
}

impl From<serde_json::Error> for JsonConverterError {
    fn from(error: serde_json::Error) -> (converted: Self) {
        JsonConverterError::Json(error)
    }
}

impl vstd::std_specs::convert::FromSpecImpl<serde_json::Error> for JsonConverterError {
    open spec fn obeys_from_spec() -> bool {
        true
    }

    open spec fn from_spec(v: serde_json::Error) -> Self {
        JsonConverterError::Json(v)
    }
}

/// The shape of a parsed training set: how many features each sample in
/// `inputs` carries, in order, and how many entries `outputs` has.
pub struct TrainingShape {
    pub sample_lengths: Vec<usize>,
    pub output_count: usize,
}

/// Every sample has as many features as the first one.
pub open spec fn uniform_width(lengths: Seq<usize>) -> bool {
    forall|i: int| 0 <= i < lengths.len() ==> #[trigger] lengths[i] == lengths[0]
}

/// The shape describes a usable training set: at least one sample, one output
/// per sample, and the same feature count on every sample.
pub open spec fn usable_shape(lengths: Seq<usize>, output_count: usize) -> bool {
    &&& lengths.len() > 0
    &&& lengths.len() == output_count
    &&& uniform_width(lengths)
}

/// Rejects payloads that parse as JSON but cannot describe a training set.
///
/// The feature count is taken from the first sample and every other sample is
/// checked against it; the first sample whose width differs is the one
/// reported.
pub fn validate(data: &TrainingShape) -> (res: Result<(), JsonConverterError>)
    ensures
        res is Ok <==> usable_shape(data.sample_lengths@, data.output_count),
        res is Ok ==> data.sample_lengths@.len() > 0 && data.sample_lengths@.len()
            == data.output_count && forall|i: int|
            0 <= i < data.sample_lengths@.len() ==> #[trigger] data.sample_lengths@[i]
                == data.sample_lengths@[0],
        data.sample_lengths@.len() == 0 ==> res == Err::<(), JsonConverterError>(
            JsonConverterError::EmptyDataSet,
        ),
        data.sample_lengths@.len() > 0 && data.sample_lengths@.len() != data.output_count ==> res
            == Err::<(), JsonConverterError>(
            JsonConverterError::SampleCountMismatch {
                inputs: data.sample_lengths@.len() as usize,
                outputs: data.output_count,
            },
        ),
        data.sample_lengths@.len() > 0 && data.sample_lengths@.len() == data.output_count
            && !uniform_width(data.sample_lengths@) ==> (res matches Err(
            JsonConverterError::RaggedSample { index, expected, found },
        ) && 0 < index < data.sample_lengths@.len() && expected == data.sample_lengths@[0] && found
            == data.sample_lengths@[index as int] && found != expected && forall|j: int|
            0 <= j < index ==> data.sample_lengths@[j] == expected),
{
    let count = data.sample_lengths.len();
    if count == 0 {
        return Err(JsonConverterError::EmptyDataSet);
    }
    if count != data.output_count {
        return Err(
            JsonConverterError::SampleCountMismatch { inputs: count, outputs: data.output_count },
        );
    }
    let n = data.sample_lengths[0];
    let mut index: usize = 0;
    while index < count
        invariant
            count == data.sample_lengths@.len(),
            count > 0,
            count == data.output_count,
            n == data.sample_lengths@[0],
            index <= count,
            forall|j: int| 0 <= j < index ==> data.sample_lengths@[j] == n,
        decreases count - index,
    {
        let found = data.sample_lengths[index];
        if found != n {
            return Err(JsonConverterError::RaggedSample { index, expected: n, found });
        }
        index += 1;
    }
    Ok(())
}

/// A training set passes validation exactly when it has a sample, as many
/// outputs as samples, and every sample, the last included, has the first
/// sample's width.
pub proof fn lemma_usable_shape_is_uniform(lengths: Seq<usize>, output_count: usize)
    ensures
        usable_shape(lengths, output_count) <==> (lengths.len() > 0 && lengths.len()
            == output_count && forall|i: int|
            0 <= i < lengths.len() ==> #[trigger] lengths[i] == lengths[0]),
{
}

/// How `serde_json::Error` renders with `{}`: calls the error's `Display`
/// implementation through `format!`.
///
/// Nothing is stated of the text: for an error of the I/O kind it is what the
/// wrapped `std::io::Error` prints, which can depend on the locale or on a
/// custom error's own `Display`, not on the error value alone.
#[verifier::external_body]
fn json_error_text(error: &serde_json::Error) -> String {
    format!("{error}")
}

/// The prefix of the message for [`JsonConverterError::Json`].
pub open spec fn json_error_prefix() -> Seq<char> {
    "invalid JSON payload: "@
}

/// The text of every error but [`JsonConverterError::Json`], whose message is
/// [`json_error_prefix`] followed by the error's own rendering.
pub open spec fn converter_error_text(err: JsonConverterError) -> Seq<char> {
    match err {
        JsonConverterError::Json(_) => json_error_prefix(),
        JsonConverterError::EmptyDataSet => "\"inputs\" is empty, there is nothing to train on"@,
        JsonConverterError::SampleCountMismatch { inputs, outputs } => "sample count mismatch: "@
            + decimal(inputs as nat) + " input sample(s) but "@ + decimal(outputs as nat)
            + " output(s)"@,
        JsonConverterError::RaggedSample { index, expected, found } => "sample "@ + decimal(
            index as nat,
        ) + " has "@ + decimal(found as nat) + " feature(s) while the first sample has "@
            + decimal(expected as nat),
    }
}

impl JsonConverterError {
    /// The error as `{}` renders it.
    pub fn message(&self) -> (text: String)
        ensures
            self is Json ==> text@.len() >= json_error_prefix().len() && text@.take(
                json_error_prefix().len() as int,
            ) == json_error_prefix(),
            !(self is Json) ==> text@ == converter_error_text(*self),
    {
        match self {
            JsonConverterError::Json(error) => {
                let mut text = String::from_str("invalid JSON payload: ");
                let detail = json_error_text(error);
                text.append(detail.as_str());
                proof {
                    assert(text@.take(json_error_prefix().len() as int) == json_error_prefix());
                }
                text
            },
            JsonConverterError::EmptyDataSet => String::from_str(
                "\"inputs\" is empty, there is nothing to train on",
            ),
            JsonConverterError::SampleCountMismatch { inputs, outputs } => {
                let mut text = String::from_str("sample count mismatch: ");
                push_decimal(&mut text, *inputs as u128);
                text.append(" input sample(s) but ");
                push_decimal(&mut text, *outputs as u128);
                text.append(" output(s)");
                text
            },
            JsonConverterError::RaggedSample { index, expected, found } => {
                let mut text = String::from_str("sample ");
                push_decimal(&mut text, *index as u128);
                text.append(" has ");
                push_decimal(&mut text, *found as u128);
                text.append(" feature(s) while the first sample has ");
                push_decimal(&mut text, *expected as u128);
                text
            },
        }
    }
}

} // verus!
