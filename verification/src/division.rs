//! Elementwise division of two arrays that never divides by zero.
//!
//! A denominator that compares equal to zero is replaced by one before the
//! division, and the quotient at that place is then overwritten with zero, the
//! fallback value. Whether any such denominator was met is reported beside
//! the quotients.

use vstd::prelude::*;
use crate::array::ShapedArray;
use crate::error::{DivideError, DivisionByZeroError};
use crate::options::{Average, DivisionByZeroStrategy, Metric, Modifier};
use crate::parallel::par_or_if_zero;
use crate::scalar::{Float, or_if_zero, or_if_zero_spec};

verus! {

/// Whether a zero was found among the denominators of a division.
pub type Found0InDenominator = bool;

/// Whether the mask is set at the places of the values that compare equal to
/// zero, and nowhere else.
spec fn marks_zeros<F: Float>(mask: Seq<bool>, values: Seq<F>) -> bool {
    &&& mask.len() == values.len()
    &&& forall|i: int| 0 <= i < values.len() ==> mask[i] == (#[trigger] values[i]).is_zero_spec()
}

/// Whether some denominator compares equal to zero.
pub open spec fn has_zero<F: Float>(denominators: Seq<F>) -> bool {
    exists|i: int| 0 <= i < denominators.len() && (#[trigger] denominators[i]).is_zero_spec()
}

/// The denominators as they are divided by: one in place of each zero.
pub open spec fn safe_denominators<F: Float>(denominators: Seq<F>) -> Seq<F> {
    Seq::new(denominators.len(), |i: int| or_if_zero_spec(denominators[i], F::one_spec()))
}

/// The quotient of one pair: zero where the denominator compares equal to
/// zero, else the numerator divided by the denominator.
pub open spec fn safe_quotient<F: Float>(numerator: F, denominator: F) -> F {
    if denominator.is_zero_spec() {
        F::zero_spec()
    } else {
        numerator.div_spec(denominator)
    }
}

/// The quotients of two sequences of the same length, pair by pair.
pub open spec fn safe_quotients<F: Float>(numerators: Seq<F>, denominators: Seq<F>) -> Seq<F> {
    Seq::new(numerators.len(), |i: int| safe_quotient(numerators[i], denominators[i]))
}

/// What the division of `numerator` by `denominator` gives, whichever way it
/// is run: the quotients in the shape of the numerator, the word whether a
/// zero was found, and the denominator as the division leaves it, with one in
/// place of each zero.
pub open spec fn is_division<F: Float>(
    numerator: ShapedArray<F>,
    denominator: ShapedArray<F>,
    quotient: ShapedArray<F>,
    found: Found0InDenominator,
    left: ShapedArray<F>,
) -> bool {
    &&& quotient.dims() == numerator.dims()
    &&& quotient.elems() == safe_quotients(numerator.elems(), denominator.elems())
    &&& found == has_zero(denominator.elems())
    &&& left.dims() == denominator.dims()
    &&& left.elems() == safe_denominators(denominator.elems())
}

/// What `prf_divide` returns for `numerator` over `denominator` under a
/// strategy, and how it leaves the denominator.
///
/// Arrays of different shapes give `ShapeMismatch`, and nothing else does.
/// Arrays of one shape with a zero in the denominator give `DivisionByZero`
/// under `ReturnError`, and nothing else does. Every other call gives the
/// division of the two arrays. A call that fails leaves the denominator as it
/// was.
pub open spec fn is_prf_division<F: Float>(
    numerator: ShapedArray<F>,
    denominator: ShapedArray<F>,
    zero_division: DivisionByZeroStrategy,
    r: Result<(ShapedArray<F>, Found0InDenominator), DivideError>,
    left: ShapedArray<F>,
) -> bool {
    &&& (r matches Err(DivideError::ShapeMismatch)) <==> numerator.dims() != denominator.dims()
    &&& (r matches Err(DivideError::DivisionByZero(_))) <==> numerator.dims() == denominator.dims()
        && zero_division == DivisionByZeroStrategy::ReturnError && has_zero(denominator.elems())
    &&& match r {
        Ok((quotient, found)) => is_division(numerator, denominator, quotient, found, left),
        Err(_) => left.dims() == denominator.dims() && left.elems() == denominator.elems(),
    }
}

/// Marks the places at which a value compares equal to zero, and says
/// whether there is such a place.
fn zero_mask<F: Float>(values: &Vec<F>) -> (r: (Vec<bool>, Found0InDenominator))
    ensures
        marks_zeros(r.0@, values@),
        r.1 == has_zero(values@),
{
    let mut mask: Vec<bool> = Vec::new();
    let mut found = false;
    let mut i: usize = 0;
    while i < values.len()
        invariant
            i <= values@.len(),
            mask@.len() == i,
            forall|j: int| 0 <= j < i ==> mask@[j] == (#[trigger] values@[j]).is_zero_spec(),
            found == exists|j: int| 0 <= j < i && (#[trigger] values@[j]).is_zero_spec(),
        decreases values@.len() - i,
    {
        let is_zero = values[i].is_zero();
        found = found || is_zero;
        mask.push(is_zero);
        i += 1;
    }
    (mask, found)
}

/// Puts `replacement` in place of each zero, element after element.
fn seq_or_if_zero<F: Float>(values: &mut Vec<F>, replacement: F)
    ensures
        final(values)@.len() == old(values)@.len(),
        forall|i: int|
            0 <= i < old(values)@.len() ==> #[trigger] final(values)@[i] == or_if_zero_spec(
                old(values)@[i],
                replacement,
            ),
{
    let mut i: usize = 0;
    while i < values.len()
        invariant
            i <= values@.len(),
            values@.len() == old(values)@.len(),
            forall|j: int|
                0 <= j < i ==> #[trigger] values@[j] == or_if_zero_spec(
                    old(values)@[j],
                    replacement,
                ),
            forall|j: int| i <= j < values@.len() ==> values@[j] == old(values)@[j],
        decreases values@.len() - i,
    {
        let v = values[i];
        values.set(i, or_if_zero(v, replacement));
        i += 1;
    }
}

/// Replaces each zero by one, either element after element or with the
/// elements handed out to worker threads. Both ways give the same values, none
/// of which compares equal to zero.
///
/// A buffer too long to be viewed as an array is gone through element after
/// element even where `parallel` is set.
fn make_safe<F: Float>(values: &mut Vec<F>, parallel: bool)
    ensures
        final(values)@ == safe_denominators(old(values)@),
        forall|i: int|
            0 <= i < final(values)@.len() ==> !(#[trigger] final(values)@[i]).is_zero_spec(),
{
    let unit = F::one();
    if parallel && values.len() <= isize::MAX as usize {
        par_or_if_zero(values, unit);
    } else {
        seq_or_if_zero(values, unit);
    }
    proof {
        assert(values@ =~= safe_denominators(old(values)@));
    }
}

/// Divides pair by pair, in place of the numerators. No denominator may
/// compare equal to zero.
fn quotients<F: Float>(numerators: Vec<F>, denominators: &Vec<F>) -> (q: Vec<F>)
    requires
        numerators@.len() == denominators@.len(),
        forall|i: int|
            0 <= i < denominators@.len() ==> !(#[trigger] denominators@[i]).is_zero_spec(),
    ensures
        q@.len() == numerators@.len(),
        forall|i: int|
            0 <= i < q@.len() ==> #[trigger] q@[i] == numerators@[i].div_spec(denominators@[i]),
{
    let mut q = numerators;
    let mut i: usize = 0;
    while i < q.len()
        invariant
            i <= q@.len(),
            q@.len() == numerators@.len(),
            q@.len() == denominators@.len(),
            forall|j: int|
                0 <= j < denominators@.len() ==> !(#[trigger] denominators@[j]).is_zero_spec(),
            forall|j: int|
                0 <= j < i ==> #[trigger] q@[j] == numerators@[j].div_spec(denominators@[j]),
            forall|j: int| i <= j < q@.len() ==> q@[j] == numerators@[j],
        decreases q@.len() - i,
    {
        let n = q[i];
        q.set(i, n.div(denominators[i]));
        i += 1;
    }
    q
}

/// Overwrites with zero, the fallback value, each value whose place is marked.
fn overwrite_marked<F: Float>(values: Vec<F>, mask: &Vec<bool>) -> (r: Vec<F>)
    requires
        values@.len() == mask@.len(),
    ensures
        r@.len() == values@.len(),
        forall|i: int|
            0 <= i < r@.len() ==> #[trigger] r@[i] == if mask@[i] {
                F::zero_spec()
            } else {
                values@[i]
            },
{
    let mut r = values;
    let mut i: usize = 0;
    while i < r.len()
        invariant
            i <= r@.len(),
            r@.len() == values@.len(),
            r@.len() == mask@.len(),
            forall|j: int|
                0 <= j < i ==> #[trigger] r@[j] == if mask@[j] {
                    F::zero_spec()
                } else {
                    values@[j]
                },
            forall|j: int| i <= j < r@.len() ==> r@[j] == values@[j],
        decreases r@.len() - i,
    {
        if mask[i] {
            r.set(i, F::zero());
        }
        i += 1;
    }
    r
}

/// The division itself, for both ways of running it, once the zeros among
/// the denominators are marked: replaces them by one, divides, and overwrites
/// the quotients at the marked places with zero.
fn divide_marked<F: Float>(
    numerators: Vec<F>,
    denominators: &mut Vec<F>,
    mask: &Vec<bool>,
    parallel: bool,
) -> (q: Vec<F>)
    requires
        numerators@.len() == old(denominators)@.len(),
        marks_zeros(mask@, old(denominators)@),
    ensures
        q@ == safe_quotients(numerators@, old(denominators)@),
        final(denominators)@ == safe_denominators(old(denominators)@),
{
    make_safe(denominators, parallel);
    let raw = quotients(numerators, denominators);
    let q = overwrite_marked(raw, mask);
    proof {
        assert(q@ =~= safe_quotients(numerators@, old(denominators)@));
    }
    q
}

/// Divides pair by pair under the given strategy for zero denominators. It
/// fails exactly if the strategy is `ReturnError` and some denominator compares
/// equal to zero.
pub(crate) fn divide_vectors<F: Float>(
    numerators: Vec<F>,
    denominators: Vec<F>,
    parallel: bool,
    zero_division: DivisionByZeroStrategy,
) -> (r: Result<Vec<F>, DivisionByZeroError>)
    requires
        numerators@.len() == denominators@.len(),
    ensures
        r is Err <==> zero_division == DivisionByZeroStrategy::ReturnError && has_zero(
            denominators@,
        ),
        r matches Ok(q) ==> q@ == safe_quotients(numerators@, denominators@),
{
    let (mask, found) = zero_mask(&denominators);
    if found && zero_division == DivisionByZeroStrategy::ReturnError {
        return Err(DivisionByZeroError);
    }
    let mut safe = denominators;
    Ok(divide_marked(numerators, &mut safe, &mask, parallel))
}

/// The division of two arrays of one shape, run in the way asked for, once
/// the zeros in the denominator are marked.
fn divide_arrays<F: Float>(
    numerator: ShapedArray<F>,
    denominator: &mut ShapedArray<F>,
    mask: &Vec<bool>,
    parallel: bool,
) -> (quotient: ShapedArray<F>)
    requires
        numerator.dims() == old(denominator).dims(),
        marks_zeros(mask@, old(denominator).elems()),
    ensures
        quotient.dims() == numerator.dims(),
        quotient.elems() == safe_quotients(numerator.elems(), old(denominator).elems()),
        final(denominator).dims() == old(denominator).dims(),
        final(denominator).elems() == safe_denominators(old(denominator).elems()),
{
    proof {
        use_type_invariant(&numerator);
        use_type_invariant(&*denominator);
    }
    let mut taken: ShapedArray<F> = ShapedArray::from_vec(Vec::new());
    std::mem::swap(denominator, &mut taken);
    let ShapedArray { shape: denominator_shape, data: mut denominators } = taken;
    let ShapedArray { shape, data } = numerator;
    let q = divide_marked(data, &mut denominators, mask, parallel);
    *denominator = ShapedArray { shape: denominator_shape, data: denominators };
    ShapedArray { shape, data: q }
}

/// Divides `numerator` by `denominator` element by element, one element after
/// the other, and says whether a zero was found in the denominator.
///
/// A quotient whose denominator compares equal to zero is zero. The
/// denominator is left with one in place of each zero.
pub fn prf_divide_results_and_mask<F: Float>(
    numerator: ShapedArray<F>,
    denominator: &mut ShapedArray<F>,
) -> (r: (ShapedArray<F>, Found0InDenominator))
    requires
        numerator.dims() == old(denominator).dims(),
    ensures
        is_division(numerator, *old(denominator), r.0, r.1, *final(denominator)),
{
    let (mask, found) = zero_mask(denominator.as_vec());
    (divide_arrays(numerator, denominator, &mask, false), found)
}

/// Divides `numerator` by `denominator` element by element, with the
/// replacement of zeros in the denominator handed out to worker threads, and
/// says whether a zero was found in the denominator.
///
/// The result is the one that `prf_divide_results_and_mask` gives.
pub fn par_prf_divide_results_and_mask<F: Float>(
    numerator: ShapedArray<F>,
    denominator: &mut ShapedArray<F>,
) -> (r: (ShapedArray<F>, Found0InDenominator))
    requires
        numerator.dims() == old(denominator).dims(),
    ensures
        is_division(numerator, *old(denominator), r.0, r.1, *final(denominator)),
{
    let (mask, found) = zero_mask(denominator.as_vec());
    (divide_arrays(numerator, denominator, &mask, true), found)
}

/// Divides `numerator` by `denominator` element by element under the given
/// strategy for zero denominators, one element after the other or, if
/// `parallel` is set, with worker threads; the result is the same either way.
///
/// Arrays of different shapes are refused before anything else is looked at.
/// Under `ReturnError` a zero in the denominator makes the division fail.
/// Otherwise the quotients come back with zero wherever the denominator
/// compares equal to zero, beside the word whether there was such a place, and
/// the denominator is left with one in place of each zero. A division that
/// fails leaves the denominator as it was.
///
/// `metric`, `modifier`, `average` and `warn_for` say what the division is
/// for, to whoever reports a zero denominator to the user. They do not change
/// what is computed.
#[allow(unused_variables)]
pub fn prf_divide<F: Float>(
    numerator: ShapedArray<F>,
    denominator: &mut ShapedArray<F>,
    parallel: bool,
    metric: Metric,
    modifier: Modifier,
    average: Average,
    warn_for: Vec<Metric>,
    zero_division: DivisionByZeroStrategy,
) -> (r: Result<(ShapedArray<F>, Found0InDenominator), DivideError>)
    ensures
        is_prf_division(numerator, *old(denominator), zero_division, r, *final(denominator)),
{
    if !numerator.same_shape(denominator) {
        return Err(DivideError::ShapeMismatch);
    }
    let (mask, found) = zero_mask(denominator.as_vec());
    if found && zero_division == DivisionByZeroStrategy::ReturnError {
        return Err(DivideError::DivisionByZero(DivisionByZeroError));
    }
    Ok((divide_arrays(numerator, denominator, &mask, parallel), found))
}

/// Without a zero in the denominator, the division run one element after the
/// other and the division run with worker threads give the same quotients,
/// each the plain quotient of its pair; both report that no zero was found,
/// and both leave the denominator as it was.
pub proof fn lemma_no_zero_equivalence<F: Float>(
    numerator: ShapedArray<F>,
    denominator: ShapedArray<F>,
    sequential: (ShapedArray<F>, Found0InDenominator),
    sequential_left: ShapedArray<F>,
    parallel: (ShapedArray<F>, Found0InDenominator),
    parallel_left: ShapedArray<F>,
)
    requires
        numerator.well_formed(),
        denominator.well_formed(),
        numerator.dims() == denominator.dims(),
        forall|i: int|
            0 <= i < denominator.elems().len() ==> !(#[trigger] denominator.elems()[i]).is_zero_spec(),
        is_division(numerator, denominator, sequential.0, sequential.1, sequential_left),
        is_division(numerator, denominator, parallel.0, parallel.1, parallel_left),
    ensures
        sequential.0.dims() == parallel.0.dims(),
        sequential.0.elems() == parallel.0.elems(),
        sequential.0.elems().len() == numerator.elems().len(),
        forall|i: int|
            0 <= i < numerator.elems().len() ==> #[trigger] sequential.0.elems()[i]
                == numerator.elems()[i].div_spec(denominator.elems()[i]),
        !sequential.1,
        !parallel.1,
        sequential_left.elems() == denominator.elems(),
        parallel_left.elems() == denominator.elems(),
{
    assert(safe_denominators(denominator.elems()) =~= denominator.elems());
}

/// Two calls of `prf_divide` on the same arrays under the same strategy return
/// the same, whichever way each is run and whatever it is said to be for:
/// both fail in the same way, or both give quotients of the same shape and
/// values and the same word whether a zero was found. Both leave the same
/// denominator.
pub proof fn lemma_division_is_determined<F: Float>(
    numerator: ShapedArray<F>,
    denominator: ShapedArray<F>,
    zero_division: DivisionByZeroStrategy,
    first: Result<(ShapedArray<F>, Found0InDenominator), DivideError>,
    first_left: ShapedArray<F>,
    second: Result<(ShapedArray<F>, Found0InDenominator), DivideError>,
    second_left: ShapedArray<F>,
)
    requires
        is_prf_division(numerator, denominator, zero_division, first, first_left),
        is_prf_division(numerator, denominator, zero_division, second, second_left),
    ensures
        match (first, second) {
            (Ok((first_quotient, first_found)), Ok((second_quotient, second_found))) => {
                &&& first_quotient.dims() == second_quotient.dims()
                &&& first_quotient.elems() == second_quotient.elems()
                &&& first_found == second_found
            },
            (Err(first_error), Err(second_error)) => first_error == second_error,
            _ => false,
        },
        first_left.dims() == second_left.dims(),
        first_left.elems() == second_left.elems(),
{
}

} // verus!
