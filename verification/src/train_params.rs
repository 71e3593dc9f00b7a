//! The query parameters of `POST /train` and their validation.
//!
//! The learning rate is held as the IEEE 754 binary64 encoding of the value
//! (what `f64::to_bits` returns), so that the range check on it is a check on
//! plain integers.

use vstd::prelude::*;
use crate::decimal::{decimal, push_decimal};

verus! {

/// The largest `loop_count` a request may ask for.
pub const MAX_LOOP_COUNT: usize = 1_000_000;

/// The encoding of `+inf`; with the sign bit clear, every encoding above it is
/// a NaN and every encoding below it a finite non-negative number.
pub const POSITIVE_INFINITY_BITS: u64 = 0x7ff0_0000_0000_0000;

/// The iteration count used when a request names none.
pub fn default_loop_count() -> (count: usize)
    ensures
        count == 20_000,
{
    20_000
}

/// `bits` encodes a finite number greater than zero: the sign bit is clear,
/// the value is not `+0.0`, and it lies below `+inf` (which also rules out
/// every NaN, whose encodings sit above it).
pub open spec fn encodes_positive_finite(bits: u64) -> bool {
    0 < bits < POSITIVE_INFINITY_BITS
}

/// Why a request's parameters were refused.
#[derive(Debug)]
pub enum TrainParamsError {
    /// `learning_rate` is zero, negative, NaN or infinite.
    LearningRate,
    /// `loop_count` is `0`.
    LoopCountZero,
    /// `loop_count` is above [`MAX_LOOP_COUNT`].
    LoopCountTooLarge { got: usize },
}

/// The two hyperparameters of a training run.
#[derive(Debug)]
pub struct TrainParams {
    /// The step size, as the bits of its `f64` encoding.
    pub learning_rate_bits: u64,
    /// How many iterations of gradient descent to run.
    pub loop_count: usize,
}

/// The outcome that [`TrainParams::validate`] gives for the given parameters:
/// the learning rate is checked first, then the lower and the upper bound of
/// the iteration count.
pub open spec fn params_verdict(learning_rate_bits: u64, loop_count: usize) -> Result<(), TrainParamsError> {
    if !encodes_positive_finite(learning_rate_bits) {
        Err(TrainParamsError::LearningRate)
    } else if loop_count == 0 {
        Err(TrainParamsError::LoopCountZero)
    } else if loop_count > MAX_LOOP_COUNT {
        Err(TrainParamsError::LoopCountTooLarge { got: loop_count })
    } else {
        Ok(())
    }
}

impl TrainParams {
    /// Checks the parameters before any training starts.
    pub fn validate(&self) -> (res: Result<(), TrainParamsError>)
        ensures
            res == params_verdict(self.learning_rate_bits, self.loop_count),
            res is Ok <==> encodes_positive_finite(self.learning_rate_bits) && 1 <= self.loop_count
                <= MAX_LOOP_COUNT,
            res is Ok <==> 0 < self.learning_rate_bits < 0x7ff0_0000_0000_0000u64 && 1
                <= self.loop_count <= 1_000_000,
    {
        if !(0 < self.learning_rate_bits && self.learning_rate_bits < POSITIVE_INFINITY_BITS) {
            return Err(TrainParamsError::LearningRate);
        }
        if self.loop_count == 0 {
            return Err(TrainParamsError::LoopCountZero);
        }
        if self.loop_count > MAX_LOOP_COUNT {
            return Err(TrainParamsError::LoopCountTooLarge { got: self.loop_count });
        }
        Ok(())
    }
}

/// The text of the reply for `err`; `shown_learning_rate` is how the refused
/// learning rate is written in it.
pub open spec fn params_error_text(err: TrainParamsError, shown_learning_rate: Seq<char>) -> Seq<char> {
    match err {
        TrainParamsError::LearningRate =>
            "learning_rate must be a finite number greater than 0, got "@ + shown_learning_rate,
        TrainParamsError::LoopCountZero => "loop_count must be at least 1"@,
        TrainParamsError::LoopCountTooLarge { got } =>
            "loop_count must not exceed "@ + decimal(MAX_LOOP_COUNT as nat) + ", got "@ + decimal(
                got as nat,
            ),
    }
}

impl TrainParamsError {
    /// The HTTP status of the reply: every refusal here is the caller's fault.
    pub fn status(&self) -> (code: u16)
        ensures
            code == 400,
    {
        400
    }

    /// The plain-text body of the reply. `shown_learning_rate` is the refused
    /// learning rate as `{}` formats it; only [`TrainParamsError::LearningRate`]
    /// quotes it.
    pub fn message(&self, shown_learning_rate: &str) -> (text: String)
        ensures
            text@ == params_error_text(*self, shown_learning_rate@),
    {
        match self {
            TrainParamsError::LearningRate => {
                let mut text = String::from_str(
                    "learning_rate must be a finite number greater than 0, got ",
                );
                text.append(shown_learning_rate);
                text
            },
            TrainParamsError::LoopCountZero => String::from_str("loop_count must be at least 1"),
            TrainParamsError::LoopCountTooLarge { got } => {
                let mut text = String::from_str("loop_count must not exceed ");
                push_decimal(&mut text, MAX_LOOP_COUNT as u128);
                text.append(", got ");
                push_decimal(&mut text, *got as u128);
                text
            },
        }
    }
}

/// The default iteration count passes validation together with any usable
/// learning rate, so a request that names no `loop_count` is never refused
/// for it.
pub proof fn lemma_default_loop_count_accepted(learning_rate_bits: u64)
    requires
        encodes_positive_finite(learning_rate_bits),
    ensures
        params_verdict(learning_rate_bits, 20_000) is Ok,
{
}

/// In IEEE 754 binary64, a value is positive and finite exactly when its sign
/// bit is clear, its exponent field is not all ones (which marks the
/// infinities and the NaNs), and it is not zero. That is what the learning
/// rate check accepts.
pub proof fn lemma_positive_finite_is_ieee(bits: u64)
    ensures
        encodes_positive_finite(bits) <==> ((bits >> 63u64) == 0u64 && ((bits >> 52u64) & 0x7ffu64)
            != 0x7ffu64 && (bits & 0x7fff_ffff_ffff_ffffu64) != 0u64),
{
    assert((0u64 < bits && bits < 0x7ff0_0000_0000_0000u64) <==> ((bits >> 63u64) == 0u64 && ((bits
        >> 52u64) & 0x7ffu64) != 0x7ffu64 && (bits & 0x7fff_ffff_ffff_ffffu64) != 0u64))
        by (bit_vector);
}

/// The parameters are accepted exactly when the learning rate is a positive
/// finite binary64 value, whatever its magnitude, and the iteration count lies
/// between 1 and 1000000.
pub proof fn lemma_params_accepted(learning_rate_bits: u64, loop_count: usize)
    ensures
        params_verdict(learning_rate_bits, loop_count) is Ok <==> ((learning_rate_bits >> 63u64)
            == 0u64 && ((learning_rate_bits >> 52u64) & 0x7ffu64) != 0x7ffu64 && (learning_rate_bits
            & 0x7fff_ffff_ffff_ffffu64) != 0u64 && 1 <= loop_count <= 1_000_000),
{
    lemma_positive_finite_is_ieee(learning_rate_bits);
}

} // verus!
