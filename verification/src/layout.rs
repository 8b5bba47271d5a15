//! Shapes and strides, and the size of the buffer a shape needs.

use vstd::prelude::*;

verus! {

/// How a tensor lies in its buffer: the extent of each axis, the step
/// between neighbours along each axis, and the position of the first
/// element. The backend only reads it.
#[derive(Debug)]
pub struct Layout {
    pub shape: Vec<usize>,
    pub stride: Vec<usize>,
    pub start_offset: usize,
}

impl Layout {
    /// Builds a layout from its parts.
    pub fn new(shape: Vec<usize>, stride: Vec<usize>, start_offset: usize) -> (layout: Layout)
        ensures
            layout.shape@ == shape@,
            layout.stride@ == stride@,
            layout.start_offset == start_offset,
    {
        Layout { shape, stride, start_offset }
    }

    /// The extent of each axis.
    pub fn dims(&self) -> (dims: &Vec<usize>)
        ensures
            dims@ == self.shape@,
    {
        &self.shape
    }

    /// The step between neighbours along each axis.
    pub fn stride(&self) -> (stride: &Vec<usize>)
        ensures
            stride@ == self.stride@,
    {
        &self.stride
    }

    /// Number of elements of the tensor.
    pub open spec fn elem_count(&self) -> int {
        product(self.shape@)
    }
}

/// The product of the extents: the number of elements of a shape.
pub open spec fn product(dims: Seq<usize>) -> int
    decreases dims.len(),
{
    if dims.len() == 0 {
        1
    } else {
        product(dims.drop_last()) * dims.last()
    }
}

/// A shape never has a negative number of elements.
pub proof fn lemma_product_nonnegative(dims: Seq<usize>)
    ensures
        product(dims) >= 0,
    decreases dims.len(),
{
    if dims.len() > 0 {
        lemma_product_nonnegative(dims.drop_last());
        let head = product(dims.drop_last());
        let extent = dims.last() as int;
        assert(head * extent >= 0) by (nonlinear_arith)
            requires
                head >= 0,
                extent >= 0,
        ;
    }
}

/// A shape with an empty axis has no element.
pub proof fn lemma_product_zero(dims: Seq<usize>, axis: int)
    requires
        0 <= axis < dims.len(),
        dims[axis] == 0,
    ensures
        product(dims) == 0,
    decreases dims.len(),
{
    if axis == dims.len() - 1 {
        assert(product(dims.drop_last()) * 0 == 0);
    } else {
        lemma_product_zero(dims.drop_last(), axis);
        assert(0 * (dims.last() as int) == 0);
    }
}

/// Without an empty axis, the first `k` axes hold at least one element and
/// no more than the whole shape.
pub proof fn lemma_product_prefix(dims: Seq<usize>, k: int)
    requires
        0 <= k <= dims.len(),
        forall|i: int| 0 <= i < dims.len() ==> #[trigger] dims[i] >= 1,
    ensures
        1 <= product(dims.take(k)) <= product(dims),
    decreases dims.len() - k,
{
    if k == dims.len() {
        assert(dims.take(k) =~= dims);
        lemma_product_at_least_one(dims);
    } else {
        lemma_product_prefix(dims, k + 1);
        lemma_product_step(dims, k);
        let head = product(dims.take(k));
        let extent = dims[k] as int;
        assert(dims.take(k + 1).take(k) =~= dims.take(k));
        lemma_product_at_least_one(dims.take(k));
        assert(head <= head * extent) by (nonlinear_arith)
            requires
                head >= 1,
                extent >= 1,
        ;
    }
}

proof fn lemma_product_at_least_one(dims: Seq<usize>)
    requires
        forall|i: int| 0 <= i < dims.len() ==> #[trigger] dims[i] >= 1,
    ensures
        product(dims) >= 1,
    decreases dims.len(),
{
    if dims.len() > 0 {
        lemma_product_at_least_one(dims.drop_last());
        let head = product(dims.drop_last());
        let extent = dims.last() as int;
        assert(head * extent >= 1) by (nonlinear_arith)
            requires
                head >= 1,
                extent >= 1,
        ;
    }
}

/// One more axis multiplies the number of elements by its extent.
pub proof fn lemma_product_step(dims: Seq<usize>, k: int)
    requires
        0 <= k < dims.len(),
    ensures
        product(dims.take(k + 1)) == product(dims.take(k)) * dims[k],
{
    assert(dims.take(k + 1).drop_last() =~= dims.take(k));
}

/// Size in bytes of a buffer that holds `dims` elements of `width` bytes
/// each, if that size fits in 64 bits.
pub fn byte_size(dims: &Vec<usize>, width: usize) -> (r: Option<u64>)
    ensures
        r == if product(dims@) * width <= u64::MAX {
            Some((product(dims@) * width) as u64)
        } else {
            None
        },
        product(dims@) * width >= 0,
{
    proof {
        lemma_product_nonnegative(dims@);
        let count = product(dims@);
        assert(count * width >= 0) by (nonlinear_arith)
            requires
                count >= 0,
                width >= 0,
        ;
    }
    let mut axis: usize = 0;
    while axis < dims.len()
        invariant
            axis <= dims@.len(),
            forall|i: int| 0 <= i < axis ==> #[trigger] dims@[i] >= 1,
        decreases dims@.len() - axis,
    {
        if dims[axis] == 0 {
            proof {
                lemma_product_zero(dims@, axis as int);
            }
            return Some(0);
        }
        axis = axis + 1;
    }
    let mut count: u64 = 1;
    let mut done: usize = 0;
    assert(dims@.take(0) =~= Seq::<usize>::empty());
    while done < dims.len()
        invariant
            done <= dims@.len(),
            forall|i: int| 0 <= i < dims@.len() ==> #[trigger] dims@[i] >= 1,
            count == product(dims@.take(done as int)),
        decreases dims@.len() - done,
    {
        proof {
            lemma_product_step(dims@, done as int);
            lemma_product_prefix(dims@, done + 1);
        }
        count = match count.checked_mul(dims[done] as u64) {
            Some(next) => next,
            None => {
                if width == 0 {
                    assert(product(dims@) * 0 == 0);
                    return Some(0);
                }
                proof {
                    let all = product(dims@);
                    assert(all * width > u64::MAX) by (nonlinear_arith)
                        requires
                            all > u64::MAX,
                            width >= 1,
                    ;
                }
                return None;
            },
        };
        done = done + 1;
    }
    assert(dims@.take(done as int) =~= dims@);
    count.checked_mul(width as u64)
}

} // verus!
