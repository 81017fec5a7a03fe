//! The scores of the classes from their counts, and the averages of scores.
//!
//! Every quotient here is taken by the division of `crate::division`, so a
//! zero denominator gives zero or a failure, as the strategy says, and never
//! a division by zero.

use vstd::prelude::*;
use crate::division::{divide_vectors, has_zero, safe_quotient, safe_quotients};
use crate::error::{DivideError, DivisionByZeroError};
use crate::options::{DivisionByZeroStrategy, Metric};
use crate::scalar::Float;

verus! {

/// The sum of the values, taken from the first to the last, starting at zero.
pub open spec fn fold_sum<F: Float>(values: Seq<F>) -> F
    decreases values.len(),
{
    if values.len() == 0 {
        F::zero_spec()
    } else {
        fold_sum(values.drop_last()).add_spec(values.last())
    }
}

/// The sum of the supports of all classes.
pub open spec fn total_support(support: Seq<u64>) -> nat
    decreases support.len(),
{
    if support.len() == 0 {
        0
    } else {
        total_support(support.drop_last()) + support.last() as nat
    }
}

/// Each value multiplied by the number that stands for the support of its class.
pub open spec fn weighted<F: Float>(values: Seq<F>, support: Seq<u64>) -> Seq<F> {
    Seq::new(values.len(), |i: int| values[i].mul_spec(F::from_count_spec(support[i] as u128)))
}

/// The share of the hits in the hits and misses of a class: its precision,
/// where the misses are the false positives, and its recall, where they are
/// the false negatives. It is zero for a class without hits and misses.
pub open spec fn hit_rate_spec<F: Float>(hits: F, misses: F) -> F {
    safe_quotient(hits, hits.add_spec(misses))
}

/// The share of the hits in the hits and misses of each class.
pub open spec fn hit_rates_spec<F: Float>(hits: Seq<F>, misses: Seq<F>) -> Seq<F> {
    Seq::new(hits.len(), |i: int| hit_rate_spec(hits[i], misses[i]))
}

/// Whether the hits and misses of some class add up to zero, so that its
/// share of hits has a zero denominator.
pub open spec fn hit_rates_meet_zero<F: Float>(hits: Seq<F>, misses: Seq<F>) -> bool {
    exists|i: int| 0 <= i < hits.len() && (#[trigger] hits[i].add_spec(misses[i])).is_zero_spec()
}

/// The weight of recall against precision in the F-beta score: one half for
/// `F05`. Every other metric goes with the balanced score, of weight one.
pub open spec fn beta_spec<F: Float>(metric: Metric) -> F {
    match metric {
        Metric::F05 => F::one_spec().div_spec(F::from_count_spec(2)),
        _ => F::one_spec(),
    }
}

/// The numerator of an F-beta score: (1 + beta^2) * precision * recall.
pub open spec fn fbeta_numerator_spec<F: Float>(precision: F, recall: F, beta: F) -> F {
    F::one_spec().add_spec(beta.mul_spec(beta)).mul_spec(precision).mul_spec(recall)
}

/// The denominator of an F-beta score: beta^2 * precision + recall.
pub open spec fn fbeta_denominator_spec<F: Float>(precision: F, recall: F, beta: F) -> F {
    beta.mul_spec(beta).mul_spec(precision).add_spec(recall)
}

/// The F-beta score that goes with a precision and a recall. It is zero
/// where its denominator compares equal to zero.
pub open spec fn fbeta_spec<F: Float>(precision: F, recall: F, beta: F) -> F {
    safe_quotient(
        fbeta_numerator_spec(precision, recall, beta),
        fbeta_denominator_spec(precision, recall, beta),
    )
}

/// The F-beta score of each class.
pub open spec fn fbeta_scores_spec<F: Float>(precision: Seq<F>, recall: Seq<F>, beta: F) -> Seq<F> {
    Seq::new(precision.len(), |i: int| fbeta_spec(precision[i], recall[i], beta))
}

/// Whether the F-beta score of some class has a zero denominator.
pub open spec fn fbeta_scores_meet_zero<F: Float>(
    precision: Seq<F>,
    recall: Seq<F>,
    beta: F,
) -> bool {
    exists|i: int|
        0 <= i < precision.len() && (#[trigger] fbeta_denominator_spec(
            precision[i],
            recall[i],
            beta,
        )).is_zero_spec()
}

/// The unweighted mean of the values: their sum over their number, and zero
/// where there is no value.
pub open spec fn mean_spec<F: Float>(values: Seq<F>) -> F {
    if values.len() == 0 {
        F::zero_spec()
    } else {
        fold_sum(values).div_spec(F::from_count_spec(values.len() as u128))
    }
}

/// The mean of the values, each weighted by the support of its class: the sum
/// of the weighted values over the total support, and zero where the total
/// support is zero.
pub open spec fn weighted_mean_spec<F: Float>(values: Seq<F>, support: Seq<u64>) -> F {
    if total_support(support) == 0 {
        F::zero_spec()
    } else {
        fold_sum(weighted(values, support)).div_spec(
            F::from_count_spec(total_support(support) as u128),
        )
    }
}

/// Adds up the values, from the first to the last.
pub fn sum<F: Float>(values: &Vec<F>) -> (s: F)
    ensures
        s == fold_sum(values@),
{
    let mut acc = F::zero();
    let mut i: usize = 0;
    while i < values.len()
        invariant
            i <= values@.len(),
            acc == fold_sum(values@.take(i as int)),
        decreases values@.len() - i,
    {
        proof {
            assert(values@.take(i + 1).drop_last() =~= values@.take(i as int));
        }
        acc = acc.add(values[i]);
        i += 1;
    }
    proof {
        assert(values@.take(i as int) =~= values@);
    }
    acc
}

/// The total of a prefix of the supports is at most as many times the
/// greatest count as the prefix is long.
proof fn lemma_total_support_bound(support: Seq<u64>, k: int)
    requires
        0 <= k <= support.len(),
    ensures
        total_support(support.take(k)) <= k * u64::MAX,
    decreases k,
{
    if k > 0 {
        lemma_total_support_bound(support, k - 1);
        assert(support.take(k).drop_last() =~= support.take(k - 1));
        assert((k - 1) * u64::MAX + u64::MAX == k * u64::MAX) by (nonlinear_arith);
    }
}

/// Adds up the supports. The total of any number of counts that a vector can
/// hold fits the result.
pub fn sum_support(support: &Vec<u64>) -> (total: u128)
    ensures
        total == total_support(support@),
{
    let mut acc: u128 = 0;
    let mut i: usize = 0;
    while i < support.len()
        invariant
            i <= support@.len(),
            acc == total_support(support@.take(i as int)),
        decreases support@.len() - i,
    {
        proof {
            lemma_total_support_bound(support@, i as int);
            assert(support@.take(i + 1).drop_last() =~= support@.take(i as int));
            assert(i * u64::MAX + u64::MAX <= u128::MAX) by (nonlinear_arith)
                requires
                    0 <= i <= u64::MAX,
            ;
        }
        acc = acc + support[i] as u128;
        i += 1;
    }
    proof {
        assert(support@.take(i as int) =~= support@);
    }
    acc
}

/// A vector of the same values.
pub(crate) fn copy_of<T: Copy>(values: &Vec<T>) -> (copy: Vec<T>)
    ensures
        copy@ == values@,
{
    let mut copy: Vec<T> = Vec::new();
    let mut i: usize = 0;
    while i < values.len()
        invariant
            i <= values@.len(),
            copy@ == values@.take(i as int),
        decreases values@.len() - i,
    {
        copy.push(values[i]);
        proof {
            assert(values@.take(i + 1) =~= values@.take(i as int).push(values@[i as int]));
        }
        i += 1;
    }
    proof {
        assert(values@.take(i as int) =~= values@);
    }
    copy
}

/// A vector of one value.
pub(crate) fn single<F: Float>(value: F) -> (v: Vec<F>)
    ensures
        v@ == seq![value],
{
    let mut v: Vec<F> = Vec::new();
    v.push(value);
    proof {
        assert(v@ =~= seq![value]);
    }
    v
}

/// Adds two vectors of the same length, pair by pair.
fn add_pairwise<F: Float>(left: &Vec<F>, right: &Vec<F>) -> (sums: Vec<F>)
    requires
        left@.len() == right@.len(),
    ensures
        sums@.len() == left@.len(),
        forall|i: int| 0 <= i < left@.len() ==> sums@[i] == #[trigger] left@[i].add_spec(right@[i]),
{
    let mut sums: Vec<F> = Vec::new();
    let mut i: usize = 0;
    while i < left.len()
        invariant
            i <= left@.len(),
            left@.len() == right@.len(),
            sums@.len() == i,
            forall|j: int| 0 <= j < i ==> sums@[j] == #[trigger] left@[j].add_spec(right@[j]),
        decreases left@.len() - i,
    {
        sums.push(left[i].add(right[i]));
        i += 1;
    }
    sums
}

/// Multiplies each value by the number that stands for the support of its
/// class.
fn weigh<F: Float>(values: &Vec<F>, support: &Vec<u64>) -> (products: Vec<F>)
    requires
        values@.len() == support@.len(),
    ensures
        products@ == weighted(values@, support@),
{
    let mut products: Vec<F> = Vec::new();
    let mut i: usize = 0;
    while i < values.len()
        invariant
            i <= values@.len(),
            values@.len() == support@.len(),
            products@.len() == i,
            forall|j: int|
                0 <= j < i ==> products@[j] == values@[j].mul_spec(
                    F::from_count_spec(support@[j] as u128),
                ),
        decreases values@.len() - i,
    {
        products.push(values[i].mul(F::from_count(support[i] as u128)));
        i += 1;
    }
    proof {
        assert(products@ =~= weighted(values@, support@));
    }
    products
}

/// Divides, for each class, the hits by the hits and misses: the precision of
/// each class from its true and false positives, or the recall of each class
/// from its true positives and false negatives.
pub fn hit_rates<F: Float>(
    hits: &Vec<F>,
    misses: &Vec<F>,
    parallel: bool,
    zero_division: DivisionByZeroStrategy,
) -> (r: Result<Vec<F>, DivideError>)
    ensures
        r matches Err(DivideError::ShapeMismatch) <==> hits@.len() != misses@.len(),
        r matches Err(DivideError::DivisionByZero(_)) <==> hits@.len() == misses@.len()
            && zero_division == DivisionByZeroStrategy::ReturnError && hit_rates_meet_zero(
            hits@,
            misses@,
        ),
        r matches Ok(rates) ==> rates@ == hit_rates_spec(hits@, misses@),
{
    if hits.len() != misses.len() {
        return Err(DivideError::ShapeMismatch);
    }
    let denominators = add_pairwise(hits, misses);
    proof {
        if has_zero(denominators@) {
            let i = choose|i: int|
                0 <= i < denominators@.len() && (#[trigger] denominators@[i]).is_zero_spec();
            assert(hits@[i].add_spec(misses@[i]).is_zero_spec());
        }
        if hit_rates_meet_zero(hits@, misses@) {
            let i = choose|i: int|
                0 <= i < hits@.len() && (#[trigger] hits@[i].add_spec(misses@[i])).is_zero_spec();
            assert(denominators@[i].is_zero_spec());
        }
        assert(safe_quotients(hits@, denominators@) =~= hit_rates_spec(hits@, misses@));
    }
    match divide_vectors(copy_of(hits), denominators, parallel, zero_division) {
        Ok(rates) => Ok(rates),
        Err(e) => Err(DivideError::DivisionByZero(e)),
    }
}

/// The weight of recall against precision in the F-beta score.
pub fn beta<F: Float>(metric: Metric) -> (b: F)
    ensures
        b == beta_spec::<F>(metric),
{
    match metric {
        Metric::F05 => F::one().div(F::from_count(2)),
        _ => F::one(),
    }
}

/// The F-beta score of each class from its precision and recall, with the
/// weight that goes with `metric`.
pub fn fbeta_scores<F: Float>(
    precision: &Vec<F>,
    recall: &Vec<F>,
    metric: Metric,
    parallel: bool,
    zero_division: DivisionByZeroStrategy,
) -> (r: Result<Vec<F>, DivideError>)
    ensures
        r matches Err(DivideError::ShapeMismatch) <==> precision@.len() != recall@.len(),
        r matches Err(DivideError::DivisionByZero(_)) <==> precision@.len() == recall@.len()
            && zero_division == DivisionByZeroStrategy::ReturnError && fbeta_scores_meet_zero(
            precision@,
            recall@,
            beta_spec::<F>(metric),
        ),
        r matches Ok(scores) ==> scores@ == fbeta_scores_spec(
            precision@,
            recall@,
            beta_spec::<F>(metric),
        ),
{
    if precision.len() != recall.len() {
        return Err(DivideError::ShapeMismatch);
    }
    let b: F = beta(metric);
    let b2 = b.mul(b);
    let scale = F::one().add(b2);
    let mut numerators: Vec<F> = Vec::new();
    let mut denominators: Vec<F> = Vec::new();
    let mut i: usize = 0;
    while i < precision.len()
        invariant
            i <= precision@.len(),
            precision@.len() == recall@.len(),
            b2 == b.mul_spec(b),
            scale == F::one_spec().add_spec(b2),
            numerators@.len() == i,
            denominators@.len() == i,
            forall|j: int|
                0 <= j < i ==> numerators@[j] == fbeta_numerator_spec(
                    precision@[j],
                    recall@[j],
                    b,
                ),
            forall|j: int|
                0 <= j < i ==> denominators@[j] == #[trigger] fbeta_denominator_spec(
                    precision@[j],
                    recall@[j],
                    b,
                ),
        decreases precision@.len() - i,
    {
        numerators.push(scale.mul(precision[i]).mul(recall[i]));
        denominators.push(b2.mul(precision[i]).add(recall[i]));
        i += 1;
    }
    proof {
        if has_zero(denominators@) {
            let i = choose|i: int|
                0 <= i < denominators@.len() && (#[trigger] denominators@[i]).is_zero_spec();
            assert(fbeta_denominator_spec(precision@[i], recall@[i], b).is_zero_spec());
        }
        if fbeta_scores_meet_zero(precision@, recall@, b) {
            let i = choose|i: int|
                0 <= i < precision@.len() && (#[trigger] fbeta_denominator_spec(
                    precision@[i],
                    recall@[i],
                    b,
                )).is_zero_spec();
            assert(denominators@[i].is_zero_spec());
        }
        assert(safe_quotients(numerators@, denominators@) =~= fbeta_scores_spec(
            precision@,
            recall@,
            b,
        ));
    }
    match divide_vectors(numerators, denominators, parallel, zero_division) {
        Ok(scores) => Ok(scores),
        Err(e) => Err(DivideError::DivisionByZero(e)),
    }
}

/// Divides one number by the number that stands for a count, under the given
/// strategy for zero denominators. It fails exactly if the strategy is
/// `ReturnError` and the count is zero.
fn divide_by_count<F: Float>(
    numerator: F,
    count: u128,
    parallel: bool,
    zero_division: DivisionByZeroStrategy,
) -> (r: Result<F, DivisionByZeroError>)
    ensures
        r is Err <==> zero_division == DivisionByZeroStrategy::ReturnError && count == 0,
        r matches Ok(q) ==> q == if count == 0 {
            F::zero_spec()
        } else {
            numerator.div_spec(F::from_count_spec(count))
        },
{
    let denominator = F::from_count(count);
    let numerators = single(numerator);
    let denominators = single(denominator);
    proof {
        if has_zero(denominators@) {
            let i = choose|i: int|
                0 <= i < denominators@.len() && (#[trigger] denominators@[i]).is_zero_spec();
            assert(denominators@[i] == denominator);
        }
        if count == 0 {
            assert(denominators@[0].is_zero_spec());
        }
    }
    match divide_vectors(numerators, denominators, parallel, zero_division) {
        Ok(q) => Ok(q[0]),
        Err(e) => Err(e),
    }
}

/// The macro average of the scores of the classes: their unweighted mean.
///
/// Without any class the mean has a zero denominator: it is then zero, or the
/// call fails, as the strategy says.
pub fn macro_average<F: Float>(
    scores: &Vec<F>,
    parallel: bool,
    zero_division: DivisionByZeroStrategy,
) -> (r: Result<F, DivisionByZeroError>)
    ensures
        r is Err <==> zero_division == DivisionByZeroStrategy::ReturnError && scores@.len() == 0,
        r matches Ok(mean) ==> mean == mean_spec(scores@),
{
    divide_by_count(sum(scores), scores.len() as u128, parallel, zero_division)
}

/// The weighted average of the scores of the classes: each score times the
/// support of its class, summed, over the total support.
///
/// With a total support of zero the average has a zero denominator: it is
/// then zero, or the call fails, as the strategy says.
pub fn weighted_average<F: Float>(
    scores: &Vec<F>,
    support: &Vec<u64>,
    parallel: bool,
    zero_division: DivisionByZeroStrategy,
) -> (r: Result<F, DivideError>)
    ensures
        r matches Err(DivideError::ShapeMismatch) <==> scores@.len() != support@.len(),
        r matches Err(DivideError::DivisionByZero(_)) <==> scores@.len() == support@.len()
            && zero_division == DivisionByZeroStrategy::ReturnError && total_support(support@)
            == 0,
        r matches Ok(mean) ==> mean == weighted_mean_spec(scores@, support@),
{
    if scores.len() != support.len() {
        return Err(DivideError::ShapeMismatch);
    }
    let products = weigh(scores, support);
    match divide_by_count(sum(&products), sum_support(support), parallel, zero_division) {
        Ok(mean) => Ok(mean),
        Err(e) => Err(DivideError::DivisionByZero(e)),
    }
}

} // verus!
