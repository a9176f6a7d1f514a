//! The tensor payload as this core sees it: an element kind, a shape, and
//! one 64-bit word per element.
//!
//! The surrounding tensor library owns the element-wise mathematics; the
//! graph core only needs the closed operation set below: construct a
//! matching-shape tensor of ones or zeroes, add one tensor into another in
//! place, read one element, and validate shape consistency.  A `Float32`
//! tensor stores each element as the 64-bit word the collaborator hands
//! over; the core never reinterprets the words, it only moves and sums them.

use vstd::prelude::*;

verus! {

/// The closed set of element types a variable may carry.  (The tensor
/// library also knows a byte kind, but no variable is ever made of it.)
#[derive(Clone, Copy, Debug, PartialEq, Eq, Hash, Structural)]
pub enum ElementKind {
    Float32,
    Int64,
}

/// The mathematical value of a [`Tensor`]: its identity tag, element kind,
/// shape, and element words.
pub ghost struct TensorView {
    pub tid: nat,
    pub kind: ElementKind,
    pub shape: Seq<usize>,
    pub elems: Seq<i64>,
}

/// Number of elements a shape calls for: the product of its dimensions.
pub open spec fn shape_size(dims: Seq<usize>) -> nat
    decreases dims.len(),
{
    if dims.len() == 0 {
        1
    } else {
        shape_size(dims.drop_last()) * (dims.last() as nat)
    }
}

/// The sequence of `n` copies of `v`.
pub open spec fn const_seq(n: nat, v: i64) -> Seq<i64> {
    Seq::new(n, |i: int| v)
}

/// Element addition as the accumulation protocol performs it: two's
/// complement wrap-around on the stored words.
pub open spec fn wrap_add(a: i64, b: i64) -> i64 {
    vstd::wrapping::i64_specs::wrapping_add(a, b)
}

/// Element-wise accumulation of `b` into `a`.
pub open spec fn accum_seq(a: Seq<i64>, b: Seq<i64>) -> Seq<i64> {
    Seq::new(a.len(), |i: int| wrap_add(a[i], b[i]))
}

impl TensorView {
    /// A tensor value is consistent when it holds exactly as many elements
    /// as its shape calls for.
    pub open spec fn wf(self) -> bool {
        self.elems.len() == shape_size(self.shape)
    }

    /// The all-ones tensor value shaped like `self`, as synthesized for an
    /// unseeded backward pass.
    pub open spec fn ones_like(self) -> TensorView {
        TensorView { tid: 0, kind: self.kind, shape: self.shape, elems: const_seq(self.elems.len(), 1) }
    }
}

/// A tensor as stored in a variable record.  The `tid` tag is the identity
/// the surrounding tensor library gave the value; tensors minted by this
/// core (gradient seeds and fresh gradient slots) carry tag zero.
#[derive(Debug)]
pub struct Tensor {
    pub tid: usize,
    pub kind: ElementKind,
    pub shape: Vec<usize>,
    pub elems: Vec<i64>,
}

impl View for Tensor {
    type V = TensorView;

    open spec fn view(&self) -> TensorView {
        TensorView {
            tid: self.tid as nat,
            kind: self.kind,
            shape: self.shape@,
            elems: self.elems@,
        }
    }
}

impl Clone for Tensor {
    fn clone(&self) -> (r: Self)
        ensures
            r@ == self@,
    {
        Tensor {
            tid: self.tid,
            kind: self.kind,
            shape: copy_vec(&self.shape),
            elems: copy_vec(&self.elems),
        }
    }
}

/// An element-wise copy of a vector of plain values.
fn copy_vec<T: Copy>(v: &Vec<T>) -> (r: Vec<T>)
    ensures
        r@ == v@,
{
    let mut r: Vec<T> = Vec::new();
    let mut i: usize = 0;
    while i < v.len()
        invariant
            i <= v.len(),
            r@ == v@.take(i as int),
        decreases v.len() - i,
    {
        r.push(v[i]);
        i += 1;
        proof {
            assert(v@.take(i as int) == v@.take(i as int - 1).push(v@[i as int - 1]));
        }
    }
    proof {
        assert(v@.take(v@.len() as int) == v@);
    }
    r
}

/// A vector of `n` copies of `v`.
fn fill_vec(n: usize, v: i64) -> (r: Vec<i64>)
    ensures
        r@ == const_seq(n as nat, v),
{
    let mut r: Vec<i64> = Vec::new();
    let mut i: usize = 0;
    while i < n
        invariant
            i <= n,
            r@ == const_seq(i as nat, v),
        decreases n - i,
    {
        r.push(v);
        i += 1;
        proof {
            assert(r@ =~= const_seq(i as nat, v));
        }
    }
    r
}

impl Tensor {
    /// Wraps plain values into a tensor.  The caller owns consistency; see
    /// [`Tensor::validate`].
    pub fn new(tid: usize, kind: ElementKind, shape: Vec<usize>, elems: Vec<i64>) -> (r: Tensor)
        ensures
            r@ == (TensorView { tid: tid as nat, kind, shape: shape@, elems: elems@ }),
    {
        Tensor { tid, kind, shape, elems }
    }

    /// The all-ones tensor shaped like `self`, used as the implicit seed of
    /// an unseeded backward pass.
    pub fn ones_like(&self) -> (r: Tensor)
        ensures
            r@ == self@.ones_like(),
    {
        Tensor {
            tid: 0,
            kind: self.kind,
            shape: copy_vec(&self.shape),
            elems: fill_vec(self.elems.len(), 1),
        }
    }

    /// The all-zeroes tensor shaped like `self`, the initial value of a
    /// fresh gradient slot.
    pub fn zeros_like(&self) -> (r: Tensor)
        ensures
            r@.tid == 0,
            r@.kind == self@.kind,
            r@.shape == self@.shape,
            r@.elems == const_seq(self@.elems.len(), 0),
    {
        Tensor {
            tid: 0,
            kind: self.kind,
            shape: copy_vec(&self.shape),
            elems: fill_vec(self.elems.len(), 0),
        }
    }

    /// Whether two tensors agree in shape.
    pub fn same_shape(&self, other: &Tensor) -> (r: bool)
        ensures
            r == (self@.shape == other@.shape),
    {
        let mut i: usize = 0;
        if self.shape.len() != other.shape.len() {
            proof {
                assert(self@.shape.len() != other@.shape.len());
            }
            return false;
        }
        while i < self.shape.len()
            invariant
                i <= self.shape.len(),
                self.shape.len() == other.shape.len(),
                forall|j: int| 0 <= j < i ==> self.shape@[j] == other.shape@[j],
            decreases self.shape.len() - i,
        {
            if self.shape[i] != other.shape[i] {
                return false;
            }
            i += 1;
        }
        proof {
            assert(self@.shape =~= other@.shape);
        }
        true
    }

    /// Adds `other` into `self` element by element, with the wrap-around
    /// semantics of the stored words.  This is the "scaled in-place add
    /// with scale factor one" of the accumulation protocol.
    pub fn add_in_place(&mut self, other: &Tensor)
        requires
            old(self)@.elems.len() == other@.elems.len(),
        ensures
            final(self)@.tid == old(self)@.tid,
            final(self)@.kind == old(self)@.kind,
            final(self)@.shape == old(self)@.shape,
            final(self)@.elems == accum_seq(old(self)@.elems, other@.elems),
    {
        let n: usize = self.elems.len();
        let mut i: usize = 0;
        while i < n
            invariant
                i <= n,
                n == self.elems.len(),
                n == other.elems.len(),
                self.tid == old(self).tid,
                self.kind == old(self).kind,
                self.shape@ == old(self).shape@,
                forall|j: int| 0 <= j < i ==> self.elems@[j] == wrap_add(old(self).elems@[j], other.elems@[j]),
                forall|j: int| i <= j < n ==> self.elems@[j] == old(self).elems@[j],
            decreases n - i,
        {
            let s = self.elems[i].wrapping_add(other.elems[i]);
            self.elems[i] = s;
            i += 1;
        }
        proof {
            assert(self@.elems =~= accum_seq(old(self)@.elems, other@.elems));
        }
    }

    /// One stored element word, by flat index.
    pub fn element(&self, idx: usize) -> (r: Result<i64, crate::Fatal>)
        ensures
            idx < self@.elems.len() ==> r == Ok::<i64, crate::Fatal>(self@.elems[idx as int]),
            idx >= self@.elems.len() ==> r == Err::<i64, crate::Fatal>(crate::Fatal::OutOfBounds),
    {
        if idx < self.elems.len() {
            Ok(self.elems[idx])
        } else {
            Err(crate::Fatal::OutOfBounds)
        }
    }

    /// Shape/consistency validation: whether the element count matches the
    /// shape's product.
    pub fn validate(&self) -> (r: bool)
        ensures
            r == self@.wf(),
    {
        let mut i: usize = 0;
        while i < self.shape.len()
            invariant
                i <= self.shape.len(),
                forall|j: int| 0 <= j < i ==> self.shape@[j] >= 1,
            decreases self.shape.len() - i,
        {
            if self.shape[i] == 0 {
                proof {
                    lemma_shape_size_zero_dim(self.shape@, i as int);
                }
                return self.elems.len() == 0;
            }
            i += 1;
        }
        let mut acc: usize = 1;
        let mut k: usize = 0;
        while k < self.shape.len()
            invariant
                k <= self.shape.len(),
                acc == shape_size(self.shape@.take(k as int)),
                forall|j: int| 0 <= j < self.shape@.len() ==> self.shape@[j] >= 1,
            decreases self.shape.len() - k,
        {
            let next = acc.checked_mul(self.shape[k]);
            proof {
                lemma_shape_size_snoc(self.shape@, k as int);
            }
            match next {
                Some(p) => {
                    acc = p;
                }
                None => {
                                let count: usize = self.elems.len();
                    proof {
                        lemma_shape_size_prefix_bound(self.shape@, k as int + 1);
                        assert(shape_size(self.shape@.take(k as int + 1)) > usize::MAX);
                        assert(count <= usize::MAX);
                    }
                    return false;
                }
            }
            k += 1;
        }
        proof {
            assert(self.shape@.take(self.shape@.len() as int) == self.shape@);
        }
        acc == self.elems.len()
    }
}

/// Splitting the product of a prefix one dimension later: the product of
/// the first `i + 1` dimensions is the product of the first `i` times the
/// `i`-th.
proof fn lemma_shape_size_snoc(dims: Seq<usize>, i: int)
    requires
        0 <= i < dims.len(),
    ensures
        shape_size(dims.take(i + 1)) == shape_size(dims.take(i)) * dims[i],
{
    assert(dims.take(i + 1).drop_last() =~= dims.take(i));
    assert(dims.take(i + 1).last() == dims[i]);
}

/// A shape with a zero dimension calls for no elements at all.
proof fn lemma_shape_size_zero_dim(dims: Seq<usize>, i: int)
    requires
        0 <= i < dims.len(),
        dims[i] == 0,
    ensures
        shape_size(dims) == 0,
    decreases dims.len(),
{
    if i == dims.len() - 1 {
        assert(dims.last() == 0);
    } else {
        lemma_shape_size_zero_dim(dims.drop_last(), i);
    }
}

/// With every dimension at least one, the product of the whole shape is at
/// least the product of any prefix.
proof fn lemma_shape_size_prefix_bound(dims: Seq<usize>, i: int)
    requires
        0 <= i <= dims.len(),
        forall|j: int| 0 <= j < dims.len() ==> dims[j] >= 1,
    ensures
        shape_size(dims) >= shape_size(dims.take(i)),
    decreases dims.len() - i,
{
    if i == dims.len() {
        assert(dims.take(i) =~= dims);
    } else {
        lemma_shape_size_snoc(dims, i);
        lemma_shape_size_prefix_bound(dims, i + 1);
        let p = shape_size(dims.take(i));
        let q = shape_size(dims.take(i + 1));
        assert(q >= p) by (nonlinear_arith)
            requires
                q == p * dims[i],
                dims[i] >= 1,
                p >= 0,
        ;
    }
}

} // verus!
