//! Shapes and the strides derived from them.

use smallvec::SmallVec;
use vstd::arithmetic::div_mod::{lemma_mul_mod_noop_left, lemma_small_mod};
use vstd::arithmetic::mul::lemma_mul_is_commutative;
use vstd::prelude::*;
use vstd::std_specs::cmp::PartialEqSpecImpl;
use vstd::std_specs::convert::FromSpecImpl;
use vstd::std_specs::slice::{axiom_spec_slice_iter, into_iter_elts};

verus! {

/// A short list of sizes, kept in a `smallvec::SmallVec` that holds up to
/// four of them without allocating.
///
/// The verifier does not look inside the list. What it holds goes by the
/// name [`dims_of`], and the four functions below say of `SmallVec`'s own
/// functions what their source shows; that much is taken on trust.
#[derive(Debug)]
#[verifier::external_body]
pub struct Dims {
    inner: SmallVec<[usize; 4]>,
}

/// The sizes that a list holds, first to last: the items of the `SmallVec`
/// in the order of its slice.
pub uninterp spec fn dims_of(d: Dims) -> Seq<usize>;

/// Calls `SmallVec::from_vec`, which moves the items of `v` into the list
/// and keeps their order. Taken on trust: the list holds exactly `v`.
#[verifier::external_body]
fn dims_from_vec(v: Vec<usize>) -> (d: Dims)
    ensures
        dims_of(d) == v@,
{
    Dims { inner: SmallVec::from_vec(v) }
}

/// Calls `SmallVec::as_slice`, the slice over all the items of the list.
/// Taken on trust: the slice is what the list holds.
#[verifier::external_body]
fn dims_as_slice(d: &Dims) -> (s: &[usize])
    ensures
        s@ == dims_of(*d),
{
    d.inner.as_slice()
}

/// Calls `SmallVec::clone`, which builds a list from the slice of this one.
/// Taken on trust: the new list holds the same sizes.
#[verifier::external_body]
fn dims_clone(d: &Dims) -> (c: Dims)
    ensures
        dims_of(c) == dims_of(*d),
{
    Dims { inner: d.inner.clone() }
}

/// Calls `SmallVec::eq`, which compares the slices of the two lists.
/// Taken on trust: it is true exactly where both hold the same sizes in the
/// same order.
#[verifier::external_body]
fn dims_eq(a: &Dims, b: &Dims) -> (r: bool)
    ensures
        r == (dims_of(*a) == dims_of(*b)),
{
    a.inner == b.inner
}

/// The product of the sizes in `dims`; of no sizes it is one.
pub open spec fn product(dims: Seq<usize>) -> nat
    decreases dims.len(),
{
    if dims.len() == 0 {
        1
    } else {
        dims.first() as nat * product(dims.drop_first())
    }
}

/// The product of the last `count` sizes of `dims`.
pub open spec fn tail_product(dims: Seq<usize>, count: int) -> nat {
    product(dims.subrange(dims.len() - count, dims.len() as int))
}

/// `n` as a machine word keeps it: its residue modulo the number of words.
pub open spec fn wrapped(n: nat) -> usize {
    (n % (usize::MAX as nat + 1)) as usize
}

/// The row-major strides of `dims`, one for each dimension and in the order
/// of the dimensions: the stride of a dimension is the product of the sizes
/// of all the dimensions after it, so the last dimension has stride one. A
/// stride that no machine word holds is kept as `wrapped` keeps it.
pub open spec fn row_major(dims: Seq<usize>) -> Seq<usize> {
    Seq::new(dims.len(), |i: int| wrapped(product(dims.subrange(i + 1, dims.len() as int))))
}

/// Taking one more size at the front of the tail multiplies the product by it.
pub proof fn lemma_tail_product_step(dims: Seq<usize>, count: int)
    requires
        0 <= count < dims.len(),
    ensures
        tail_product(dims, count + 1) == dims[dims.len() - 1 - count] as nat * tail_product(
            dims,
            count,
        ),
{
    let n = dims.len() as int;
    let longer = dims.subrange(n - count - 1, n);
    assert(longer.drop_first() =~= dims.subrange(n - count, n));
}

/// A shape with a dimension of size zero has no elements.
pub proof fn lemma_product_zero(dims: Seq<usize>, k: int)
    requires
        0 <= k < dims.len(),
        dims[k] == 0,
    ensures
        product(dims) == 0,
    decreases dims.len(),
{
    if k > 0 {
        lemma_product_zero(dims.drop_first(), k - 1);
        assert(dims.first() as nat * 0 == 0) by (nonlinear_arith);
    } else {
        assert(0 * product(dims.drop_first()) == 0) by (nonlinear_arith);
    }
}

/// Where no dimension has size zero, the product of a tail is at least one.
pub proof fn lemma_tail_product_positive(dims: Seq<usize>, count: int)
    requires
        forall|j: int| 0 <= j < dims.len() ==> dims[j] >= 1,
        0 <= count <= dims.len(),
    ensures
        1 <= tail_product(dims, count),
    decreases count,
{
    if count == 0 {
        assert(dims.subrange(dims.len() as int, dims.len() as int) =~= Seq::<usize>::empty());
    } else {
        lemma_tail_product_positive(dims, count - 1);
        lemma_tail_product_step(dims, count - 1);
        let d = dims[dims.len() - count] as nat;
        let p = tail_product(dims, count - 1);
        assert(1 <= d * p) by (nonlinear_arith)
            requires
                d >= 1,
                p >= 1,
        ;
    }
}

/// Where no dimension has size zero, the product of a tail is no more than
/// the product of a longer tail.
pub proof fn lemma_tail_product_grows(dims: Seq<usize>, shorter: int, longer: int)
    requires
        forall|j: int| 0 <= j < dims.len() ==> dims[j] >= 1,
        0 <= shorter <= longer <= dims.len(),
    ensures
        tail_product(dims, shorter) <= tail_product(dims, longer),
    decreases longer - shorter,
{
    if shorter < longer {
        lemma_tail_product_grows(dims, shorter + 1, longer);
        lemma_tail_product_step(dims, shorter);
        lemma_tail_product_positive(dims, shorter);
        let d = dims[dims.len() - 1 - shorter] as nat;
        let p = tail_product(dims, shorter);
        assert(p <= d * p) by (nonlinear_arith)
            requires
                d >= 1,
                p >= 0,
        ;
    }
}

/// The sizes of a tensor's dimensions, in order.
#[derive(Debug)]
pub struct Shape(Dims);

impl View for Shape {
    type V = Seq<usize>;

    closed spec fn view(&self) -> Seq<usize> {
        dims_of(self.0)
    }
}

impl Shape {
    /// The number of elements of a tensor of this shape.
    pub open spec fn numel_spec(&self) -> nat {
        product(self@)
    }

    pub fn new(d: Vec<usize>) -> (s: Shape)
        ensures
            s@ == d@,
    {
        Shape(dims_from_vec(d))
    }

    /// The sizes as a slice.
    pub fn as_slice(&self) -> (s: &[usize])
        ensures
            s@ == self@,
    {
        dims_as_slice(&self.0)
    }

    /// An iterator over the sizes, first to last.
    pub fn iter(&self) -> (it: std::slice::Iter<'_, usize>)
        ensures
            into_iter_elts(it) == self@,
    {
        let dims = dims_as_slice(&self.0);
        proof {
            axiom_spec_slice_iter(dims);
        }
        dims.iter()
    }

    /// The number of elements, where a machine word holds it.
    pub fn checked_numel(&self) -> (n: Option<usize>)
        ensures
            n == if self.numel_spec() <= usize::MAX {
                Some(self.numel_spec() as usize)
            } else {
                None
            },
    {
        let dims = dims_as_slice(&self.0);
        let n = dims.len();
        let mut k: usize = 0;
        while k < n
            invariant
                n == dims@.len(),
                k <= n,
                dims@ == self@,
                forall|j: int| 0 <= j < k ==> dims@[j] >= 1,
            decreases n - k,
        {
            if dims[k] == 0 {
                proof {
                    lemma_product_zero(dims@, k as int);
                }
                return Some(0);
            }
            k += 1;
        }
        let mut acc: usize = 1;
        let mut i: usize = 0;
        proof {
            lemma_tail_product_positive(dims@, 0);
            assert(dims@.subrange(n as int, n as int) =~= Seq::<usize>::empty());
        }
        while i < n
            invariant
                n == dims@.len(),
                i <= n,
                dims@ == self@,
                forall|j: int| 0 <= j < n ==> dims@[j] >= 1,
                acc == tail_product(dims@, i as int),
            decreases n - i,
        {
            let d = dims[n - 1 - i];
            proof {
                lemma_tail_product_step(dims@, i as int);
                lemma_tail_product_grows(dims@, i as int + 1, n as int);
                assert(dims@.subrange(0, n as int) =~= dims@);
                lemma_mul_is_commutative(acc as int, d as int);
            }
            match acc.checked_mul(d) {
                Some(x) => {
                    acc = x;
                },
                None => {
                    return None;
                },
            }
            i += 1;
        }
        assert(dims@.subrange(0, n as int) =~= dims@);
        Some(acc)
    }

    /// The number of elements: the product of the sizes.
    pub fn numel(&self) -> (n: usize)
        requires
            self.numel_spec() <= usize::MAX,
        ensures
            n == self.numel_spec(),
    {
        match self.checked_numel() {
            Some(n) => n,
            None => 0,
        }
    }
}

impl Clone for Shape {
    fn clone(&self) -> (s: Shape)
        ensures
            s@ == self@,
    {
        Shape(dims_clone(&self.0))
    }
}

impl PartialEqSpecImpl for Shape {
    open spec fn obeys_eq_spec() -> bool {
        true
    }

    open spec fn eq_spec(&self, other: &Shape) -> bool {
        self@ == other@
    }
}

impl PartialEq for Shape {
    fn eq(&self, other: &Shape) -> (r: bool) {
        dims_eq(&self.0, &other.0)
    }
}

impl Eq for Shape {

}

impl FromSpecImpl<Vec<usize>> for Shape {
    /// Two shapes of the same sizes need not be the same value, so what
    /// `from` returns is stated by its view.
    open spec fn obeys_from_spec() -> bool {
        false
    }

    closed spec fn from_spec(v: Vec<usize>) -> Shape {
        Shape(choose|d: Dims| dims_of(d) == v@)
    }
}

impl From<Vec<usize>> for Shape {
    fn from(v: Vec<usize>) -> (s: Shape)
        ensures
            s@ == v@,
    {
        Shape::new(v)
    }
}

/// The strides of a tensor's dimensions, in the order of the dimensions.
#[derive(Debug)]
pub struct Strides(Dims);

impl View for Strides {
    type V = Seq<usize>;

    closed spec fn view(&self) -> Seq<usize> {
        dims_of(self.0)
    }
}

impl FromSpecImpl<Shape> for Strides {
    /// Two lists of the same strides need not be the same value, so what
    /// `from` returns is stated by its view.
    open spec fn obeys_from_spec() -> bool {
        false
    }

    closed spec fn from_spec(shape: Shape) -> Strides {
        Strides(choose|d: Dims| dims_of(d) == row_major(shape@))
    }
}

impl From<Shape> for Strides {
    /// The row-major strides of `shape`: the last is one, and each one
    /// before it is the next stride times the next size.
    fn from(shape: Shape) -> (s: Strides)
        ensures
            s@ == row_major(shape@),
    {
        let dims = dims_as_slice(&shape.0);
        let n = dims.len();
        let mut strides: Vec<usize> = vec![1usize; n];
        let mut stride: usize = 1;
        let mut i: usize = 0;
        proof {
            assert(dims@.subrange(n as int, n as int) =~= Seq::<usize>::empty());
            lemma_small_mod(1, usize::MAX as nat + 1);
        }
        while i < n
            invariant
                n == dims@.len(),
                i <= n,
                strides@.len() == n,
                forall|j: int|
                    n - i <= j < n ==> strides@[j] == wrapped(tail_product(dims@, n - 1 - j)),
                stride == wrapped(tail_product(dims@, i as int)),
            decreases n - i,
        {
            let at = n - 1 - i;
            let d = dims[at];
            strides[at] = stride;
            proof {
                let p = tail_product(dims@, i as int);
                let m = usize::MAX as int + 1;
                lemma_tail_product_step(dims@, i as int);
                lemma_mul_mod_noop_left(p as int, d as int, m);
                lemma_mul_is_commutative(p as int, d as int);
            }
            stride = stride.wrapping_mul(d);
            i += 1;
        }
        assert(strides@ =~= row_major(dims@)) by {
            assert forall|j: int| 0 <= j < n implies strides@[j] == row_major(dims@)[j] by {
                assert(tail_product(dims@, n - 1 - j) == product(
                    dims@.subrange(j + 1, n as int),
                ));
            }
        }
        Strides(dims_from_vec(strides))
    }
}

impl Strides {
    /// The strides as a slice.
    pub fn as_slice(&self) -> (s: &[usize])
        ensures
            s@ == self@,
    {
        dims_as_slice(&self.0)
    }
}

impl Clone for Strides {
    fn clone(&self) -> (s: Strides)
        ensures
            s@ == self@,
    {
        Strides(dims_clone(&self.0))
    }
}

/// The last dimension has stride one, and the stride of each dimension
/// before it is the stride of the next dimension times the size of the next
/// dimension, as machine words multiply.
pub proof fn lemma_strides_step(dims: Seq<usize>, i: int)
    requires
        0 <= i < dims.len(),
    ensures
        row_major(dims).len() == dims.len(),
        i == dims.len() - 1 ==> row_major(dims)[i] == 1,
        i < dims.len() - 1 ==> row_major(dims)[i] as int == (row_major(dims)[i + 1] * dims[i
            + 1]) % (usize::MAX + 1),
{
    let n = dims.len() as int;
    let m = usize::MAX as int + 1;
    if i == n - 1 {
        assert(dims.subrange(n, n) =~= Seq::<usize>::empty());
        lemma_small_mod(1, m as nat);
    } else {
        let rest = tail_product(dims, n - 2 - i);
        assert(rest == product(dims.subrange(i + 2, n)));
        lemma_tail_product_step(dims, n - 2 - i);
        assert(tail_product(dims, n - 1 - i) == product(dims.subrange(i + 1, n)));
        lemma_mul_mod_noop_left(rest as int, dims[i + 1] as int, m);
        lemma_mul_is_commutative(rest as int, dims[i + 1] as int);
    }
}

/// Where no dimension has size zero and the number of elements fits a machine
/// word, every stride is the exact product of the sizes after its dimension.
pub proof fn lemma_strides_exact(dims: Seq<usize>, i: int)
    requires
        forall|j: int| 0 <= j < dims.len() ==> dims[j] >= 1,
        product(dims) <= usize::MAX,
        0 <= i < dims.len(),
    ensures
        row_major(dims)[i] == product(dims.subrange(i + 1, dims.len() as int)),
{
    let n = dims.len() as int;
    lemma_tail_product_grows(dims, n - 1 - i, n);
    assert(dims.subrange(0, n) =~= dims);
    assert(tail_product(dims, n - 1 - i) == product(dims.subrange(i + 1, n)));
    lemma_small_mod(tail_product(dims, n - 1 - i), usize::MAX as nat + 1);
}

} // verus!
