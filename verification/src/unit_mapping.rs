//! Moves coefficients between the caller's units and the rescaled space the
//! descent runs in.
//!
//! The scaling service divides every value in feature column `j` by `10^r_j`
//! and every output by `10^r_y`, so the line fitted in scaled space,
//! `y / 10^r_y = sum_j a'_j * (x_j / 10^r_j) + b'`, is the line
//! `y = sum_j (a'_j * 10^(r_y - r_j)) * x_j + b' * 10^r_y` in the caller's
//! units. Each coefficient is therefore multiplied by a power of ten; this
//! module computes those exponents, one per coefficient, from `ratios` laid
//! out the way the scaler returns it: one exponent per feature, the one for
//! the outputs last. The multiplication itself is floating point and is done
//! by the caller, as `c * 10.0_f64.powi(e as i32)`.

use vstd::prelude::*;

verus! {

/// The power of ten that lifts coefficient `j` (`0 <= j <= n`, where
/// `n + 1 == ratios.len()`) out of the scaled space: `r_y - r_j` for a
/// weight, `r_y` for the bias in the last slot.
pub open spec fn original_exponent(ratios: Seq<usize>, j: int) -> int {
    let n = ratios.len() - 1;
    if j < n {
        ratios[n] - ratios[j]
    } else {
        ratios[n] as int
    }
}

/// The power of ten that takes coefficient `j` into the scaled space: the
/// inverse of [`original_exponent`].
pub open spec fn scaled_exponent(ratios: Seq<usize>, j: int) -> int {
    -original_exponent(ratios, j)
}

/// The exponents that map scaled-space coefficients to the caller's units,
/// one per coefficient. The bias takes `r_y` and not the slot of `ratios` at
/// its own index, which would pair `r_y` with itself.
pub fn to_original_exponents(ratios: &Vec<usize>) -> (exponents: Vec<i128>)
    requires
        ratios.len() >= 1,
    ensures
        exponents.len() == ratios.len(),
        forall|j: int|
            0 <= j < ratios.len() ==> #[trigger] exponents[j] == original_exponent(ratios@, j),
{
    let n = ratios.len() - 1;
    let output_exponent = ratios[n] as i128;
    let mut exponents: Vec<i128> = Vec::new();
    let mut j: usize = 0;
    while j < n
        invariant
            n + 1 == ratios.len(),
            output_exponent == ratios@[n as int],
            j <= n,
            exponents.len() == j,
            forall|k: int|
                0 <= k < j ==> #[trigger] exponents[k] == original_exponent(ratios@, k),
        decreases n - j,
    {
        exponents.push(output_exponent - ratios[j] as i128);
        j += 1;
    }
    exponents.push(output_exponent);
    exponents
}

/// The exponents that map coefficients in the caller's units into the scaled
/// space, one per coefficient; applied to a starting point on its way in.
pub fn to_scaled_exponents(ratios: &Vec<usize>) -> (exponents: Vec<i128>)
    requires
        ratios.len() >= 1,
    ensures
        exponents.len() == ratios.len(),
        forall|j: int|
            0 <= j < ratios.len() ==> #[trigger] exponents[j] == scaled_exponent(ratios@, j),
{
    let n = ratios.len() - 1;
    let output_exponent = ratios[n] as i128;
    let mut exponents: Vec<i128> = Vec::new();
    let mut j: usize = 0;
    while j < n
        invariant
            n + 1 == ratios.len(),
            output_exponent == ratios@[n as int],
            j <= n,
            exponents.len() == j,
            forall|k: int|
                0 <= k < j ==> #[trigger] exponents[k] == scaled_exponent(ratios@, k),
        decreases n - j,
    {
        exponents.push(ratios[j] as i128 - output_exponent);
        j += 1;
    }
    exponents.push(-output_exponent);
    exponents
}

/// Mapping a coefficient into the scaled space and back out again multiplies
/// it by `10^0`: for every slot the two exponents cancel, so a resumed run
/// lands on exactly the point the previous run stopped at.
pub proof fn lemma_round_trip(ratios: Seq<usize>, j: int)
    requires
        ratios.len() >= 1,
        0 <= j < ratios.len(),
    ensures
        scaled_exponent(ratios, j) + original_exponent(ratios, j) == 0,
{
}

/// A model fitted in scaled space and its mapped-back twin predict the same
/// value: for feature `j` the weight's exponent plus the exponent that undid
/// the column's scaling (`r_j`) is the outputs' exponent `r_y`, by which the
/// scaled prediction is lifted, and the bias is lifted by `r_y` itself.
pub proof fn lemma_same_prediction(ratios: Seq<usize>)
    requires
        ratios.len() >= 1,
    ensures
        forall|j: int|
            0 <= j < ratios.len() - 1 ==> #[trigger] original_exponent(ratios, j) + ratios[j]
                == ratios[ratios.len() - 1],
        original_exponent(ratios, ratios.len() - 1) == ratios[ratios.len() - 1],
{
}

} // verus!
