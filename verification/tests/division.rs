use prf_metrics::array::ShapedArray;
use prf_metrics::division::{
    par_prf_divide_results_and_mask, prf_divide, prf_divide_results_and_mask,
};
use prf_metrics::error::{DivideError, DivisionByZeroError};
use prf_metrics::options::{Average, DivisionByZeroStrategy, Metric, Modifier};
use prf_metrics::scalar::{or_if_zero, Float};

/// A double-precision number as an element of the arrays. Each `_spec`
/// function is written like the operation that it describes.
#[derive(Clone, Copy, Debug, PartialEq)]
struct Real(f64);

impl Float for Real {
    fn zero_spec() -> Self {
        Real(0.0)
    }

    fn one_spec() -> Self {
        Real(1.0)
    }

    fn from_count_spec(count: u128) -> Self {
        Real(count as f64)
    }

    fn is_zero_spec(self) -> bool {
        self.0 == 0.0
    }

    fn add_spec(self, rhs: Self) -> Self {
        Real(self.0 + rhs.0)
    }

    fn mul_spec(self, rhs: Self) -> Self {
        Real(self.0 * rhs.0)
    }

    fn div_spec(self, divisor: Self) -> Self {
        Real(self.0 / divisor.0)
    }

    fn zero() -> Self {
        Real(0.0)
    }

    fn one() -> Self {
        Real(1.0)
    }

    fn from_count(count: u128) -> Self {
        Real(count as f64)
    }

    fn is_zero(self) -> bool {
        self.0 == 0.0
    }

    fn add(self, rhs: Self) -> Self {
        Real(self.0 + rhs.0)
    }

    fn mul(self, rhs: Self) -> Self {
        Real(self.0 * rhs.0)
    }

    fn div(self, divisor: Self) -> Self {
        Real(self.0 / divisor.0)
    }
}

/// A single-precision number as an element of the arrays.
#[derive(Clone, Copy, Debug, PartialEq)]
struct Single(f32);

impl Float for Single {
    fn zero_spec() -> Self {
        Single(0.0)
    }

    fn one_spec() -> Self {
        Single(1.0)
    }

    fn from_count_spec(count: u128) -> Self {
        Single(count as f32)
    }

    fn is_zero_spec(self) -> bool {
        self.0 == 0.0
    }

    fn add_spec(self, rhs: Self) -> Self {
        Single(self.0 + rhs.0)
    }

    fn mul_spec(self, rhs: Self) -> Self {
        Single(self.0 * rhs.0)
    }

    fn div_spec(self, divisor: Self) -> Self {
        Single(self.0 / divisor.0)
    }

    fn zero() -> Self {
        Single(0.0)
    }

    fn one() -> Self {
        Single(1.0)
    }

    fn from_count(count: u128) -> Self {
        Single(count as f32)
    }

    fn is_zero(self) -> bool {
        self.0 == 0.0
    }

    fn add(self, rhs: Self) -> Self {
        Single(self.0 + rhs.0)
    }

    fn mul(self, rhs: Self) -> Self {
        Single(self.0 * rhs.0)
    }

    fn div(self, divisor: Self) -> Self {
        Single(self.0 / divisor.0)
    }
}

fn reals(values: &[f64]) -> Vec<Real> {
    values.iter().map(|v| Real(*v)).collect()
}

fn bits(values: &[Real]) -> Vec<u64> {
    values.iter().map(|v| v.0.to_bits()).collect()
}

fn flat(values: &[f64]) -> ShapedArray<Real> {
    ShapedArray::from_vec(reals(values))
}

fn row(values: &[f64]) -> ShapedArray<Real> {
    ShapedArray::from_shape_vec(vec![1, values.len()], reals(values)).unwrap()
}

fn divide(
    numerator: &[f64],
    denominator: &mut ShapedArray<Real>,
    parallel: bool,
    zero_division: DivisionByZeroStrategy,
) -> Result<(ShapedArray<Real>, bool), DivideError> {
    prf_divide(
        flat(numerator),
        denominator,
        parallel,
        Metric::Precision,
        Modifier::Predicted,
        Average::Macro,
        vec![Metric::Precision],
        zero_division,
    )
}

#[test]
fn test_par_divide_results_and_mask() {
    let numerator = row(&[1., 2., 4., 5.]);
    let mut cloned = row(&[1., 2., 4., 5.]);
    let mut same_cloned = row(&[1., 2., 4., 5.]);
    let (div_result, has_zero) =
        prf_divide_results_and_mask(row(&[1., 2., 4., 5.]), &mut same_cloned);
    let (par_div_result, par_has_zero) = par_prf_divide_results_and_mask(numerator, &mut cloned);
    let has_no_zero = !has_zero;
    let par_has_no_zero = !par_has_zero;
    assert!(has_no_zero);
    assert!(par_has_no_zero);
    assert_eq!(div_result.shape(), &vec![1, 4]);
    assert_eq!(div_result.as_vec(), &reals(&[1., 1., 1., 1.]));
    assert_eq!(par_div_result.shape(), &vec![1, 4]);
    assert_eq!(par_div_result.as_vec(), &reals(&[1., 1., 1., 1.]));
}

#[test]
fn no_zero_gives_plain_quotients_both_ways() {
    for parallel in [false, true] {
        let mut denominator = flat(&[1., 2., 4., 5.]);
        let (quotient, found) = divide(
            &[1., 2., 4., 5.],
            &mut denominator,
            parallel,
            DivisionByZeroStrategy::ReplaceWithFallback,
        )
        .unwrap();
        assert_eq!(quotient.as_vec(), &reals(&[1., 1., 1., 1.]));
        assert!(!found);
        assert_eq!(denominator.as_vec(), &reals(&[1., 2., 4., 5.]));
    }
}

#[test]
fn no_zero_quotients_are_elementwise() {
    let numerator = [3., -7.5, 1e300, 0., 2.];
    let denominator = [4., 2.5, 1e-10, 9., -3.];
    let expected: Vec<Real> =
        numerator.iter().zip(denominator.iter()).map(|(n, d)| Real(n / d)).collect();
    for parallel in [false, true] {
        for zero_division in
            [DivisionByZeroStrategy::ReplaceWithFallback, DivisionByZeroStrategy::ReturnError]
        {
            let mut left = flat(&denominator);
            let (quotient, found) =
                divide(&numerator, &mut left, parallel, zero_division).unwrap();
            assert_eq!(quotient.as_vec(), &expected);
            assert!(!found);
        }
    }
}

#[test]
fn zero_with_error_fails_without_a_quotient() {
    for parallel in [false, true] {
        let mut denominator = flat(&[0., 5.]);
        let r = divide(&[3., 2.], &mut denominator, parallel, DivisionByZeroStrategy::ReturnError);
        assert!(matches!(r, Err(DivideError::DivisionByZero(DivisionByZeroError))));
        assert_eq!(denominator.as_vec(), &reals(&[0., 5.]));
    }
}

#[test]
fn zero_with_fallback_gives_zero_at_that_place() {
    for parallel in [false, true] {
        let mut denominator = flat(&[0., 5.]);
        let (quotient, found) = divide(
            &[3., 2.],
            &mut denominator,
            parallel,
            DivisionByZeroStrategy::ReplaceWithFallback,
        )
        .unwrap();
        assert_eq!(quotient.as_vec(), &reals(&[0.0, 0.4]));
        assert!(found);
    }
}

#[test]
fn zero_in_the_denominator_is_replaced_by_one() {
    let mut denominator = flat(&[0., 5., 0.]);
    let (quotient, found) =
        prf_divide_results_and_mask(flat(&[3., 2., 7.]), &mut denominator);
    assert_eq!(quotient.as_vec(), &reals(&[0.0, 0.4, 0.0]));
    assert!(found);
    assert_eq!(denominator.as_vec(), &reals(&[1., 5., 1.]));
}

#[test]
fn worker_threads_replace_zero_by_one() {
    let mut denominator = flat(&[0., 5., 0.]);
    let (quotient, found) =
        par_prf_divide_results_and_mask(flat(&[3., 2., 7.]), &mut denominator);
    assert_eq!(quotient.as_vec(), &reals(&[0.0, 0.4, 0.0]));
    assert!(found);
    assert_eq!(denominator.as_vec(), &reals(&[1., 5., 1.]));
}

#[test]
fn negative_zero_counts_as_zero() {
    for parallel in [false, true] {
        let mut denominator = flat(&[-0.0, 2.]);
        let (quotient, found) = divide(
            &[3., 1.],
            &mut denominator,
            parallel,
            DivisionByZeroStrategy::ReplaceWithFallback,
        )
        .unwrap();
        assert_eq!(bits(quotient.as_vec()), bits(&reals(&[0.0, 0.5])));
        assert!(found);
        assert_eq!(bits(denominator.as_vec()), bits(&reals(&[1., 2.])));
    }
}

#[test]
fn quotient_is_never_infinite_by_virtue_of_a_zero_denominator() {
    let mut denominator = flat(&[0., 0., 0.]);
    let (quotient, found) = divide(
        &[1., -1., 0.],
        &mut denominator,
        false,
        DivisionByZeroStrategy::ReplaceWithFallback,
    )
    .unwrap();
    assert!(found);
    for q in quotient.as_vec() {
        assert!(q.0.is_finite());
        assert_eq!(q.0, 0.0);
    }
}

#[test]
fn a_numerator_that_is_not_finite_goes_through() {
    let mut denominator = flat(&[2., 2., 0.]);
    let (quotient, found) = divide(
        &[f64::NAN, f64::INFINITY, f64::NAN],
        &mut denominator,
        true,
        DivisionByZeroStrategy::ReplaceWithFallback,
    )
    .unwrap();
    assert!(found);
    assert!(quotient.as_vec()[0].0.is_nan());
    assert_eq!(quotient.as_vec()[1].0, f64::INFINITY);
    assert_eq!(quotient.as_vec()[2].0, 0.0);
}

#[test]
fn a_denominator_that_is_not_a_number_is_no_zero() {
    let mut denominator = flat(&[f64::NAN]);
    let (quotient, found) =
        divide(&[1.], &mut denominator, false, DivisionByZeroStrategy::ReturnError).unwrap();
    assert!(!found);
    assert!(quotient.as_vec()[0].0.is_nan());
}

#[test]
fn mismatched_shapes_fail_before_any_division() {
    for parallel in [false, true] {
        for zero_division in
            [DivisionByZeroStrategy::ReplaceWithFallback, DivisionByZeroStrategy::ReturnError]
        {
            let mut denominator = flat(&[0., 5., 1.]);
            let r = divide(&[3., 2.], &mut denominator, parallel, zero_division);
            assert!(matches!(r, Err(DivideError::ShapeMismatch)));
            assert_eq!(denominator.as_vec(), &reals(&[0., 5., 1.]));
        }
    }
}

#[test]
fn same_length_in_another_shape_is_a_mismatch() {
    for parallel in [false, true] {
        let numerator =
            ShapedArray::from_shape_vec(vec![2, 2], reals(&[1., 2., 3., 4.])).unwrap();
        let mut denominator =
            ShapedArray::from_shape_vec(vec![4], reals(&[1., 0., 3., 4.])).unwrap();
        let r = prf_divide(
            numerator,
            &mut denominator,
            parallel,
            Metric::Recall,
            Modifier::True,
            Average::PerClass,
            Vec::new(),
            DivisionByZeroStrategy::ReturnError,
        );
        assert!(matches!(r, Err(DivideError::ShapeMismatch)));
        assert_eq!(denominator.as_vec(), &reals(&[1., 0., 3., 4.]));
    }
}

#[test]
fn quotient_keeps_the_shape_of_the_numerator() {
    let numerator =
        ShapedArray::from_shape_vec(vec![2, 3], reals(&[1., 2., 3., 4., 5., 6.])).unwrap();
    let mut denominator =
        ShapedArray::from_shape_vec(vec![2, 3], reals(&[2., 0., 2., 0., 2., 0.])).unwrap();
    let (quotient, found) = prf_divide(
        numerator,
        &mut denominator,
        true,
        Metric::F1,
        Modifier::True,
        Average::Weighted,
        vec![Metric::F1, Metric::Recall],
        DivisionByZeroStrategy::default(),
    )
    .unwrap();
    assert_eq!(quotient.shape(), &vec![2, 3]);
    assert_eq!(quotient.as_vec(), &reals(&[0.5, 0., 1.5, 0., 2.5, 0.]));
    assert!(found);
    assert_eq!(denominator.shape(), &vec![2, 3]);
    assert_eq!(denominator.as_vec(), &reals(&[2., 1., 2., 1., 2., 1.]));
}

#[test]
fn what_the_division_is_for_does_not_change_it() {
    let mut first_left = flat(&[0., 5., 8.]);
    let first = prf_divide(
        flat(&[3., 2., 1.]),
        &mut first_left,
        false,
        Metric::Precision,
        Modifier::Predicted,
        Average::Micro,
        vec![Metric::Precision],
        DivisionByZeroStrategy::ReplaceWithFallback,
    )
    .unwrap();
    let mut second_left = flat(&[0., 5., 8.]);
    let second = prf_divide(
        flat(&[3., 2., 1.]),
        &mut second_left,
        true,
        Metric::F05,
        Modifier::True,
        Average::Weighted,
        Vec::new(),
        DivisionByZeroStrategy::ReplaceWithFallback,
    )
    .unwrap();
    assert_eq!(first.0.as_vec(), second.0.as_vec());
    assert_eq!(first.1, second.1);
    assert_eq!(first_left.as_vec(), second_left.as_vec());
}

#[test]
fn repeated_division_gives_the_same() {
    let numerator: Vec<f64> = (0..1000).map(|i| (i as f64) * 0.37 - 11.0).collect();
    let denominator: Vec<f64> = (0..1000).map(|i| ((i % 7) as f64) - 3.0).collect();
    for parallel in [false, true] {
        let mut first_left = flat(&denominator);
        let first = divide(
            &numerator,
            &mut first_left,
            parallel,
            DivisionByZeroStrategy::ReplaceWithFallback,
        )
        .unwrap();
        for _ in 0..5 {
            let mut left = flat(&denominator);
            let again =
                divide(&numerator, &mut left, parallel, DivisionByZeroStrategy::ReplaceWithFallback)
                    .unwrap();
            assert_eq!(bits(again.0.as_vec()), bits(first.0.as_vec()));
            assert_eq!(again.1, first.1);
            assert_eq!(bits(left.as_vec()), bits(first_left.as_vec()));
        }
    }
}

#[test]
fn both_ways_agree_on_a_long_array() {
    let numerator: Vec<f64> = (0..50_000).map(|i| (i as f64) * 1.25 - 300.0).collect();
    let denominator: Vec<f64> = (0..50_000).map(|i| ((i % 11) as f64) - 5.0).collect();
    let mut sequential_left = flat(&denominator);
    let (sequential, sequential_found) =
        prf_divide_results_and_mask(flat(&numerator), &mut sequential_left);
    let mut parallel_left = flat(&denominator);
    let (parallel, parallel_found) =
        par_prf_divide_results_and_mask(flat(&numerator), &mut parallel_left);
    assert_eq!(bits(sequential.as_vec()), bits(parallel.as_vec()));
    assert!(sequential_found);
    assert!(parallel_found);
    assert_eq!(bits(sequential_left.as_vec()), bits(parallel_left.as_vec()));
    for i in 0..denominator.len() {
        let expected = if denominator[i] == 0.0 { 0.0 } else { numerator[i] / denominator[i] };
        assert_eq!(sequential.as_vec()[i].0.to_bits(), expected.to_bits());
        let safe = if denominator[i] == 0.0 { 1.0 } else { denominator[i] };
        assert_eq!(parallel_left.as_vec()[i].0, safe);
    }
}

#[test]
fn empty_arrays_divide_to_an_empty_array() {
    for parallel in [false, true] {
        let mut denominator = flat(&[]);
        let (quotient, found) =
            divide(&[], &mut denominator, parallel, DivisionByZeroStrategy::ReturnError).unwrap();
        assert_eq!(quotient.len(), 0);
        assert_eq!(quotient.shape(), &vec![0]);
        assert!(!found);
    }
}

#[test]
fn single_precision_divides_the_same_way() {
    for parallel in [false, true] {
        let numerator = ShapedArray::from_vec(vec![Single(3.), Single(2.), Single(1.)]);
        let mut denominator = ShapedArray::from_vec(vec![Single(0.), Single(5.), Single(3.)]);
        let (quotient, found) = prf_divide(
            numerator,
            &mut denominator,
            parallel,
            Metric::Precision,
            Modifier::Predicted,
            Average::PerClass,
            Vec::new(),
            DivisionByZeroStrategy::ReplaceWithFallback,
        )
        .unwrap();
        assert_eq!(quotient.as_vec(), &vec![Single(0.0), Single(0.4), Single(1.0f32 / 3.0f32)]);
        assert!(found);
        assert_eq!(denominator.as_vec(), &vec![Single(1.), Single(5.), Single(3.)]);
    }
}

#[test]
fn a_zero_is_found_anywhere() {
    for parallel in [false, true] {
        for (denominator, expected) in [
            (vec![1., -2., f64::NAN, f64::INFINITY, 1e-320], false),
            (vec![0., 1., 2.], true),
            (vec![1., 0., 2.], true),
            (vec![1., 2., -0.0], true),
        ] {
            let numerator = vec![1.; denominator.len()];
            let mut left = flat(&denominator);
            let (_, found) = divide(
                &numerator,
                &mut left,
                parallel,
                DivisionByZeroStrategy::ReplaceWithFallback,
            )
            .unwrap();
            assert_eq!(found, expected);
            let mut left = flat(&denominator);
            let r = divide(&numerator, &mut left, parallel, DivisionByZeroStrategy::ReturnError);
            assert_eq!(r.is_err(), expected);
        }
    }
}

#[test]
fn or_if_zero_replaces_only_zero() {
    assert_eq!(or_if_zero(Real(0.0), Real(1.0)), Real(1.0));
    assert_eq!(or_if_zero(Real(-0.0), Real(1.0)), Real(1.0));
    assert_eq!(or_if_zero(Real(0.0), Real(-4.0)), Real(-4.0));
    assert_eq!(or_if_zero(Real(2.5), Real(1.0)), Real(2.5));
    assert_eq!(or_if_zero(Real(-1e-300), Real(1.0)), Real(-1e-300));
    assert!(or_if_zero(Real(f64::NAN), Real(1.0)).0.is_nan());
}

#[test]
fn the_element_types_meet_what_the_trait_asks() {
    assert!(Real::zero().is_zero());
    assert!(!Real::one().is_zero());
    assert!(Single::zero().is_zero());
    assert!(!Single::one().is_zero());
    assert!(Real::from_count(0).is_zero());
    assert!(Single::from_count(0).is_zero());
    for count in [1, 2, 1000, u64::MAX as u128, u128::MAX] {
        assert!(!Real::from_count(count).is_zero());
        assert!(!Single::from_count(count).is_zero());
    }
    assert_eq!(Real::from_count(6), Real(6.0));
    assert_eq!(Real(1.5).add(Real(2.0)), Real(3.5));
    assert_eq!(Real(1.5).mul(Real(2.0)), Real(3.0));
    assert_eq!(Real(1.5).div(Real(2.0)), Real(0.75));
}
