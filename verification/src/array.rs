//! Arrays of any number of dimensions, stored in row-major order.

use vstd::prelude::*;

verus! {

/// The number of elements of an array with the given axis lengths: their
/// product, which is 1 for an array without axes.
pub open spec fn volume(dims: Seq<usize>) -> nat
    decreases dims.len(),
{
    if dims.len() == 0 {
        1
    } else {
        volume(dims.drop_last()) * dims.last() as nat
    }
}

/// Taking one more axis into account multiplies the volume by its length.
proof fn lemma_volume_step(dims: Seq<usize>, k: int)
    requires
        0 <= k < dims.len(),
    ensures
        volume(dims.take(k + 1)) == volume(dims.take(k)) * dims[k] as nat,
{
    assert(dims.take(k + 1).drop_last() =~= dims.take(k));
}

/// An array with an axis of length zero has no elements.
proof fn lemma_volume_zero(dims: Seq<usize>, i: int)
    requires
        0 <= i < dims.len(),
        dims[i] == 0,
    ensures
        volume(dims) == 0,
    decreases dims.len(),
{
    if i < dims.len() - 1 {
        lemma_volume_zero(dims.drop_last(), i);
    }
    assert(volume(dims) == volume(dims.drop_last()) * dims.last() as nat);
    assert(volume(dims.drop_last()) * dims.last() as nat == 0) by (nonlinear_arith)
        requires
            volume(dims.drop_last()) == 0 || dims.last() as nat == 0,
    ;
}

/// Where no axis is empty, the volume of the first `k` axes is at least 1 and
/// at most the volume of all of them.
proof fn lemma_volume_of_prefix(dims: Seq<usize>, k: int)
    requires
        0 <= k <= dims.len(),
        forall|j: int| 0 <= j < dims.len() ==> dims[j] >= 1,
    ensures
        1 <= volume(dims.take(k)) <= volume(dims),
    decreases dims.len() - k,
{
    if k == dims.len() {
        assert(dims.take(k) =~= dims);
        lemma_volume_positive(dims);
    } else {
        lemma_volume_step(dims, k);
        lemma_volume_of_prefix(dims, k + 1);
        lemma_volume_positive(dims.take(k));
        assert(volume(dims.take(k)) <= volume(dims.take(k)) * dims[k] as nat)
            by (nonlinear_arith)
            requires
                dims[k] as nat >= 1,
        ;
    }
}

/// Where no axis is empty, the array has at least one element.
proof fn lemma_volume_positive(dims: Seq<usize>)
    requires
        forall|j: int| 0 <= j < dims.len() ==> dims[j] >= 1,
    ensures
        volume(dims) >= 1,
    decreases dims.len(),
{
    if dims.len() > 0 {
        lemma_volume_positive(dims.drop_last());
        assert(volume(dims.drop_last()) * dims.last() as nat >= 1) by (nonlinear_arith)
            requires
                volume(dims.drop_last()) >= 1,
                dims.last() as nat >= 1,
        ;
    }
}

/// Whether some axis has length zero.
fn has_empty_axis(shape: &Vec<usize>) -> (found: bool)
    ensures
        found == exists|j: int| 0 <= j < shape@.len() && shape@[j] == 0,
{
    let mut i: usize = 0;
    while i < shape.len()
        invariant
            i <= shape@.len(),
            forall|j: int| 0 <= j < i ==> shape@[j] != 0,
        decreases shape@.len() - i,
    {
        if shape[i] == 0 {
            return true;
        }
        i += 1;
    }
    false
}

/// The number of elements that a shape calls for, where a `usize` can hold it.
pub fn checked_volume(shape: &Vec<usize>) -> (v: Option<usize>)
    ensures
        match v {
            Some(n) => n == volume(shape@),
            None => volume(shape@) > usize::MAX,
        },
{
    if has_empty_axis(shape) {
        proof {
            let j = choose|j: int| 0 <= j < shape@.len() && shape@[j] == 0;
            lemma_volume_zero(shape@, j);
        }
        return Some(0);
    }
    let mut acc: usize = 1;
    let mut i: usize = 0;
    while i < shape.len()
        invariant
            i <= shape@.len(),
            acc == volume(shape@.take(i as int)),
            forall|j: int| 0 <= j < shape@.len() ==> shape@[j] >= 1,
        decreases shape@.len() - i,
    {
        proof {
            lemma_volume_step(shape@, i as int);
            lemma_volume_of_prefix(shape@, i + 1);
        }
        match acc.checked_mul(shape[i]) {
            Some(next) => {
                acc = next;
            },
            None => {
                return None;
            },
        }
        i += 1;
    }
    proof {
        assert(shape@.take(i as int) =~= shape@);
    }
    Some(acc)
}

/// An array with a shape: one length per axis, and the elements in row-major
/// order. The number of elements is always the product of the axis lengths.
pub struct ShapedArray<F> {
    pub(crate) shape: Vec<usize>,
    pub(crate) data: Vec<F>,
}

impl<F> ShapedArray<F> {
    /// The length of each axis.
    pub open(crate) spec fn dims(&self) -> Seq<usize> {
        self.shape@
    }

    /// The elements, in row-major order.
    pub open(crate) spec fn elems(&self) -> Seq<F> {
        self.data@
    }

    /// The elements are as many as the shape calls for.
    #[verifier::type_invariant]
    pub open(crate) spec fn well_formed(&self) -> bool {
        volume(self.shape@) == self.data@.len()
    }

    /// An array of the given shape over the given elements, where the shape
    /// calls for exactly as many elements as there are.
    pub fn from_shape_vec(shape: Vec<usize>, data: Vec<F>) -> (a: Option<Self>)
        ensures
            a.is_some() <==> volume(shape@) == data@.len(),
            a matches Some(array) ==> array.dims() == shape@ && array.elems() == data@,
    {
        let count: usize = data.len();
        match checked_volume(&shape) {
            Some(n) => {
                if n == count {
                    Some(ShapedArray { shape, data })
                } else {
                    None
                }
            },
            None => None,
        }
    }

    /// A one-dimensional array of the given elements.
    pub fn from_vec(data: Vec<F>) -> (a: Self)
        ensures
            a.dims() == seq![data@.len() as usize],
            a.elems() == data@,
    {
        let mut shape: Vec<usize> = Vec::new();
        shape.push(data.len());
        proof {
            assert(shape@.drop_last() =~= Seq::<usize>::empty());
            assert(volume(shape@.drop_last()) == 1);
            assert(volume(shape@) == 1 * shape@.last() as nat);
        }
        ShapedArray { shape, data }
    }

    /// The length of each axis.
    pub fn shape(&self) -> (s: &Vec<usize>)
        ensures
            s@ == self.dims(),
    {
        &self.shape
    }

    /// The elements, in row-major order.
    pub fn as_vec(&self) -> (v: &Vec<F>)
        ensures
            v@ == self.elems(),
            v@.len() == volume(self.dims()),
    {
        proof {
            use_type_invariant(self);
        }
        &self.data
    }

    /// Gives up the array for its elements, in row-major order.
    pub fn into_raw_vec(self) -> (v: Vec<F>)
        ensures
            v@ == self.elems(),
            v@.len() == volume(self.dims()),
    {
        proof {
            use_type_invariant(&self);
        }
        self.data
    }

    /// The number of elements.
    pub fn len(&self) -> (n: usize)
        ensures
            n == self.elems().len(),
            n == volume(self.dims()),
    {
        proof {
            use_type_invariant(self);
        }
        self.data.len()
    }

    /// Whether two arrays have the same number of axes and the same length
    /// along each.
    pub fn same_shape(&self, other: &ShapedArray<F>) -> (same: bool)
        ensures
            same == (self.dims() == other.dims()),
            same ==> self.elems().len() == other.elems().len(),
    {
        proof {
            use_type_invariant(self);
            use_type_invariant(other);
        }
        if self.shape.len() != other.shape.len() {
            return false;
        }
        let mut i: usize = 0;
        while i < self.shape.len()
            invariant
                i <= self.shape@.len(),
                self.shape@.len() == other.shape@.len(),
                forall|j: int| 0 <= j < i ==> self.shape@[j] == other.shape@[j],
            decreases self.shape@.len() - i,
        {
            if self.shape[i] != other.shape[i] {
                return false;
            }
            i += 1;
        }
        proof {
            assert(self.shape@ =~= other.shape@);
        }
        true
    }
}

} // verus!
