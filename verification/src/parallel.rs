//! The data-parallel pass over a buffer of denominators.

use vstd::prelude::*;
use crate::scalar::{Float, or_if_zero, or_if_zero_spec};

verus! {

/// Calls `ArrayBase::par_mapv_inplace` of ndarray on a one-dimensional mutable
/// view of `values`, with `or_if_zero` and the given replacement as the
/// function applied.
///
/// ndarray's method replaces every element of the view by the function's
/// result on a clone of that element, the elements being handed out to the
/// worker threads of rayon in no particular order. The clone of a `Copy`
/// value is the value, and `or_if_zero` depends on the element and the
/// replacement alone, so the buffer afterwards holds, at each index, what
/// `or_if_zero_spec` gives for the element that was there before; its length
/// is unchanged. ndarray refuses to view a slice longer than `isize::MAX`,
/// which the precondition leaves out.
#[verifier::external_body]
pub(crate) fn par_or_if_zero<F: Float>(values: &mut Vec<F>, replacement: F)
    requires
        old(values)@.len() <= isize::MAX,
    ensures
        final(values)@.len() == old(values)@.len(),
        forall|i: int|
            0 <= i < old(values)@.len() ==> #[trigger] final(values)@[i] == or_if_zero_spec(
                old(values)@[i],
                replacement,
            ),
{
    let mut cells = ndarray::ArrayViewMut1::from(values.as_mut_slice());
    cells.par_mapv_inplace(move |v| or_if_zero(v, replacement));
}

} // verus!
