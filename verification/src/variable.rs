//! Variable handles, typed and type-erased.
//!
//! A [`Variable`] is a copyable typed reference into a [`VarTable`]: it
//! carries nothing but an id, and every access hands the table in
//! explicitly.  A [`VarKind`] erases the element type behind a two-armed
//! tagged union so heterogeneous graphs can be walked and collected; its
//! equality is by (element kind, variable id) alone.

use crate::Fatal;
use crate::arena::{FuncId, NO_VARIABLE, RecordView, SLOT_LIMIT, VarId, VarTable, VariableImpl};
use crate::tensor::{ElementKind, Tensor};
use vstd::prelude::*;

verus! {

/// A marker type standing for one member of the closed element-kind set.
pub trait Elem: Sized + core::marker::Copy {
    /// The element kind the marker stands for.
    spec fn kind() -> ElementKind;

    /// The same kind, as a runtime value.
    fn kind_value() -> (k: ElementKind)
        ensures
            k == Self::kind(),
    ;

    /// A marker value.
    fn mk() -> (m: Self);
}

/// Marker for 32-bit floating-point elements.  Their words pass through
/// this core untouched; only the tensor library reads them as numbers.
#[derive(Clone, Copy, Debug, PartialEq, Eq, Hash, Structural)]
pub struct FloatElem;

/// Marker for 64-bit integer elements.
#[derive(Clone, Copy, Debug, PartialEq, Eq, Hash, Structural)]
pub struct LongElem;

impl Elem for FloatElem {
    open spec fn kind() -> ElementKind {
        ElementKind::Float32
    }

    fn kind_value() -> (k: ElementKind) {
        ElementKind::Float32
    }

    fn mk() -> (m: Self) {
        FloatElem
    }
}

impl Elem for LongElem {
    open spec fn kind() -> ElementKind {
        ElementKind::Int64
    }

    fn kind_value() -> (k: ElementKind) {
        ElementKind::Int64
    }

    fn mk() -> (m: Self) {
        LongElem
    }
}

/// Configuration for minting a variable: an optional producing-function
/// reference, and the two tracking flags.
#[derive(Clone, Copy, Debug)]
pub struct VariableArgs {
    pub creator: Option<FuncId>,
    pub volatile: bool,
    pub requires_grad: bool,
}

impl Default for VariableArgs {
    /// The default configuration: no creator, not volatile, gradient
    /// required.
    fn default() -> (r: Self)
        ensures
            r == (VariableArgs { creator: None, volatile: false, requires_grad: true }),
    {
        VariableArgs { creator: None, volatile: false, requires_grad: true }
    }
}

impl VariableArgs {
    /// Starts a builder holding the defaults.
    pub fn build() -> (b: VariableArgsBuilder)
        ensures
            b.args == (VariableArgs { creator: None, volatile: false, requires_grad: true }),
    {
        VariableArgsBuilder { args: VariableArgs { creator: None, volatile: false, requires_grad: true } }
    }
}

/// Step-by-step construction of a [`VariableArgs`].
#[derive(Clone, Copy, Debug)]
pub struct VariableArgsBuilder {
    pub args: VariableArgs,
}

impl VariableArgsBuilder {
    /// Sets the producing-function reference.
    pub fn creator(self, creator: Option<FuncId>) -> (b: Self)
        ensures
            b.args == (VariableArgs { creator, ..self.args }),
    {
        VariableArgsBuilder { args: VariableArgs { creator, ..self.args } }
    }

    /// Sets the volatile flag, which permanently excludes the variable
    /// from backward.
    pub fn volatile(self, volatile: bool) -> (b: Self)
        ensures
            b.args == (VariableArgs { volatile, ..self.args }),
    {
        VariableArgsBuilder { args: VariableArgs { volatile, ..self.args } }
    }

    /// Sets the requires-grad flag.
    pub fn requires_grad(self, requires_grad: bool) -> (b: Self)
        ensures
            b.args == (VariableArgs { requires_grad, ..self.args }),
    {
        VariableArgsBuilder { args: VariableArgs { requires_grad, ..self.args } }
    }

    /// Finishes the builder.
    pub fn done(self) -> (r: VariableArgs)
        ensures
            r == self.args,
    {
        self.args
    }
}

/// Whether `id` names a live slot whose stored element kind is `k`.
/// Every typed access demands this: a handle's element kind must match
/// the discriminant stored at its id, and a mismatch is a fatal cast
/// error, never a silent read of the other kind's record.
pub open spec fn kind_ok(t: Seq<RecordView>, id: VarId, k: ElementKind) -> bool {
    &&& 0 <= id
    &&& (id as int) < t.len()
    &&& t[id as int].data.kind == k
}

/// The fatal error a typed access reports: a dead id is out of bounds;
/// a live id of the wrong element kind is a kind mismatch.
pub open spec fn access_err(t: Seq<RecordView>, id: VarId) -> Fatal {
    if !(0 <= id && (id as int) < t.len()) {
        Fatal::OutOfBounds
    } else {
        Fatal::KindMismatch
    }
}

/// The record minted for a fresh variable: the given tensor, the
/// configured creator and flags, no gradient, not dirty.
pub open spec fn fresh_record(data: crate::tensor::TensorView, args: VariableArgs) -> RecordView {
    RecordView {
        data,
        grad_fn: args.creator,
        grad: None,
        dirty: false,
        volatile: args.volatile,
        requires_grad: args.requires_grad,
    }
}

impl VariableImpl {
    /// Builds the record for a fresh variable from a tensor and a
    /// configuration.
    pub fn new(data: Tensor, args: &VariableArgs) -> (r: VariableImpl)
        ensures
            r@ == fresh_record(data@, *args),
    {
        VariableImpl {
            data,
            grad_fn: args.creator,
            grad: None,
            dirty: false,
            volatile: args.volatile,
            requires_grad: args.requires_grad,
        }
    }
}

/// A typed variable handle: a cheap value carrying only the arena id of
/// its record.  Distinct handles may alias one id.
#[derive(Clone, Copy, Debug, Hash)]
pub struct Variable<T: Elem> {
    pub id: VarId,
    pub marker: T,
}

impl<T: Elem> Default for Variable<T> {
    /// The handle naming no variable.
    fn default() -> (r: Self)
        ensures
            r.id == NO_VARIABLE,
    {
        Variable { id: NO_VARIABLE, marker: T::mk() }
    }
}

/// Arena access from a typed handle: reading the named record, and
/// minting a fresh one.
pub trait VarAccess<T: Elem>: Sized {
    /// The arena id the handle names.
    spec fn vid(&self) -> VarId;

    /// A snapshot of the record the handle names, which must be of the
    /// handle's own element kind.
    fn borrow(&self, table: &VarTable) -> (r: Result<VariableImpl, Fatal>)
        ensures
            match r {
                Ok(rec) => kind_ok(table@, self.vid(), T::kind()) && rec@ == table@[self.vid() as int],
                Err(e) => !kind_ok(table@, self.vid(), T::kind()) && e == access_err(
                    table@,
                    self.vid(),
                ),
            },
    ;

    /// Wraps a tensor into a fresh record appended to the arena, and
    /// returns the handle holding the minted id.
    fn new_args(table: &mut VarTable, data: Tensor, args: &VariableArgs) -> (v: Self)
        requires
            data@.wf(),
            data@.kind == T::kind(),
            old(table)@.len() < SLOT_LIMIT,
        ensures
            v.vid() as int == old(table)@.len(),
            final(table)@ == old(table)@.push(fresh_record(data@, *args)),
            old(table).wf() ==> final(table).wf(),
    ;
}

impl<T: Elem> VarAccess<T> for Variable<T> {
    open spec fn vid(&self) -> VarId {
        self.id
    }

    fn borrow(&self, table: &VarTable) -> (r: Result<VariableImpl, Fatal>) {
        match self.fetch(table) {
            Ok(rec) => Ok(rec.clone()),
            Err(e) => Err(e),
        }
    }

    fn new_args(table: &mut VarTable, data: Tensor, args: &VariableArgs) -> (v: Self) {
        let rec = VariableImpl::new(data, args);
        let id = table.allocate(rec);
        proof {
            if old(table).wf() {
                lemma_wf_push_fresh(old(table)@, fresh_record(data@, *args));
            }
        }
        Variable { id, marker: T::mk() }
    }
}

/// Appending a record whose gradient slot is empty and whose tensor is
/// well formed keeps a table consistent.
proof fn lemma_wf_push_fresh(t: Seq<RecordView>, r: RecordView)
    requires
        crate::arena::table_wf(t),
        r.data.wf(),
        r.grad is None,
    ensures
        crate::arena::table_wf(t.push(r)),
{
    let t2 = t.push(r);
    assert forall|i: int| 0 <= i < t2.len() implies crate::arena::slot_wf(t2, i) by {
        if i < t.len() {
            assert(crate::arena::slot_wf(t, i));
        }
    }
}

impl<T: Elem> Variable<T> {
    /// Wraps a tensor into a fresh variable with the default
    /// configuration.
    pub fn new(table: &mut VarTable, data: Tensor) -> (v: Self)
        requires
            data@.wf(),
            data@.kind == T::kind(),
            old(table)@.len() < SLOT_LIMIT,
        ensures
            v.id as int == old(table)@.len(),
            final(table)@ == old(table)@.push(
                fresh_record(data@, (VariableArgs { creator: None, volatile: false, requires_grad: true })),
            ),
            old(table).wf() ==> final(table).wf(),
    {
        let args = VariableArgs::default();
        <Self as VarAccess<T>>::new_args(table, data, &args)
    }

    /// The record the handle names, checked to be live and of the
    /// handle's own element kind — the access discipline every typed
    /// operation funnels through.
    pub(crate) fn fetch<'a>(&self, table: &'a VarTable) -> (r: Result<&'a VariableImpl, Fatal>)
        ensures
            match r {
                Ok(rec) => kind_ok(table@, self.id, T::kind()) && rec@ == table@[self.id as int],
                Err(e) => !kind_ok(table@, self.id, T::kind()) && e == access_err(table@, self.id),
            },
    {
        let k = T::kind_value();
        match table.get(self.id) {
            Ok(rec) => {
                if rec.data.kind != k {
                    Err(Fatal::KindMismatch)
                } else {
                    Ok(rec)
                }
            },
            Err(e) => Err(e),
        }
    }

    /// Whether the variable is permanently excluded from backward.
    pub fn is_volatile(&self, table: &VarTable) -> (r: Result<bool, Fatal>)
        ensures
            match r {
                Ok(b) => kind_ok(table@, self.id, T::kind()) && b == table@[self.id as int].volatile,
                Err(e) => !kind_ok(table@, self.id, T::kind()) && e == access_err(table@, self.id),
            },
    {
        match self.fetch(table) {
            Ok(rec) => Ok(rec.volatile),
            Err(e) => Err(e),
        }
    }

    /// Whether the variable takes part in gradient tracking.
    pub fn requires_grad(&self, table: &VarTable) -> (r: Result<bool, Fatal>)
        ensures
            match r {
                Ok(b) => kind_ok(table@, self.id, T::kind()) && b == table@[self.id as int].requires_grad,
                Err(e) => !kind_ok(table@, self.id, T::kind()) && e == access_err(table@, self.id),
            },
    {
        match self.fetch(table) {
            Ok(rec) => Ok(rec.requires_grad),
            Err(e) => Err(e),
        }
    }

    /// The reference to the operation that produced this variable, if
    /// any.
    pub fn grad_fn(&self, table: &VarTable) -> (r: Result<Option<FuncId>, Fatal>)
        ensures
            match r {
                Ok(f) => kind_ok(table@, self.id, T::kind()) && f == table@[self.id as int].grad_fn,
                Err(e) => !kind_ok(table@, self.id, T::kind()) && e == access_err(table@, self.id),
            },
    {
        match self.fetch(table) {
            Ok(rec) => Ok(rec.grad_fn),
            Err(e) => Err(e),
        }
    }

    /// The id of the accumulated-gradient slot, if a gradient has been
    /// delivered.
    pub fn grad(&self, table: &VarTable) -> (r: Result<Option<VarId>, Fatal>)
        ensures
            match r {
                Ok(g) => kind_ok(table@, self.id, T::kind()) && g == table@[self.id as int].grad,
                Err(e) => !kind_ok(table@, self.id, T::kind()) && e == access_err(table@, self.id),
            },
    {
        match self.fetch(table) {
            Ok(rec) => Ok(rec.grad),
            Err(e) => Err(e),
        }
    }

    /// A snapshot of the variable's tensor payload.
    pub fn data(&self, table: &VarTable) -> (r: Result<Tensor, Fatal>)
        ensures
            match r {
                Ok(t) => kind_ok(table@, self.id, T::kind()) && t@ == table@[self.id as int].data,
                Err(e) => !kind_ok(table@, self.id, T::kind()) && e == access_err(table@, self.id),
            },
    {
        match self.fetch(table) {
            Ok(rec) => Ok(rec.data.clone()),
            Err(e) => Err(e),
        }
    }

    /// A snapshot of the variable's tensor payload; same view as
    /// [`Variable::data`].
    pub fn data_borrow(&self, table: &VarTable) -> (r: Result<Tensor, Fatal>)
        ensures
            match r {
                Ok(t) => kind_ok(table@, self.id, T::kind()) && t@ == table@[self.id as int].data,
                Err(e) => !kind_ok(table@, self.id, T::kind()) && e == access_err(table@, self.id),
            },
    {
        self.data(table)
    }

    /// The identity tag the tensor library gave this variable's payload.
    pub fn tid(&self, table: &VarTable) -> (r: Result<usize, Fatal>)
        ensures
            match r {
                Ok(t) => kind_ok(table@, self.id, T::kind()) && t as nat == table@[self.id as int].data.tid,
                Err(e) => !kind_ok(table@, self.id, T::kind()) && e == access_err(table@, self.id),
            },
    {
        match self.fetch(table) {
            Ok(rec) => Ok(rec.data.tid),
            Err(e) => Err(e),
        }
    }

    /// One element word of the payload, by flat index.
    pub fn index(&self, table: &VarTable, idx: usize) -> (r: Result<i64, Fatal>)
        ensures
            match r {
                Ok(w) => kind_ok(table@, self.id, T::kind())
                    && idx < table@[self.id as int].data.elems.len()
                    && w == table@[self.id as int].data.elems[idx as int],
                Err(e) => !kind_ok(table@, self.id, T::kind()) && e == access_err(table@, self.id)
                    || kind_ok(table@, self.id, T::kind()) && e == Fatal::OutOfBounds
                    && idx >= table@[self.id as int].data.elems.len(),
            },
    {
        match self.fetch(table) {
            Ok(rec) => rec.data.element(idx),
            Err(e) => Err(e),
        }
    }

    /// Shape/consistency validation of the payload: fatal when the
    /// stored tensor does not hold as many elements as its shape calls
    /// for.
    pub fn validate(&self, table: &VarTable) -> (r: Result<(), Fatal>)
        ensures
            match r {
                Ok(u) => kind_ok(table@, self.id, T::kind()) && table@[self.id as int].data.wf(),
                Err(e) => !kind_ok(table@, self.id, T::kind()) && e == access_err(table@, self.id)
                    || kind_ok(table@, self.id, T::kind()) && e == Fatal::InvalidTensor
                    && !table@[self.id as int].data.wf(),
            },
    {
        match self.fetch(table) {
            Ok(rec) => {
                if rec.data.validate() {
                    Ok(())
                } else {
                    Err(Fatal::InvalidTensor)
                }
            },
            Err(e) => Err(e),
        }
    }

    /// Replaces the variable's tensor payload, keeping creator, gradient
    /// and flags.  The new tensor is of the handle's element kind, so
    /// the slot's erasure discriminant never changes.
    pub fn set_data(&self, table: &mut VarTable, data: Tensor) -> (r: Result<(), Fatal>)
        requires
            data@.kind == T::kind(),
        ensures
            match r {
                Ok(u) => kind_ok(old(table)@, self.id, T::kind()) && final(table)@ == old(
                    table,
                )@.update(
                    self.id as int,
                    (RecordView { data: data@, ..old(table)@[self.id as int] }),
                ),
                Err(e) => !kind_ok(old(table)@, self.id, T::kind()) && e == access_err(
                    old(table)@,
                    self.id,
                ) && final(table)@ == old(table)@,
            },
    {
        let (gfn, gr, di, vo, rq) = match self.fetch(table) {
            Ok(rec) => (rec.grad_fn, rec.grad, rec.dirty, rec.volatile, rec.requires_grad),
            Err(e) => {
                return Err(e);
            },
        };
        table.put(self.id as usize, VariableImpl {
            data,
            grad_fn: gfn,
            grad: gr,
            dirty: di,
            volatile: vo,
            requires_grad: rq,
        });
        Ok(())
    }

    /// Applies a caller-supplied transformation to the variable's tensor
    /// payload in place: whatever the callback may do, the record ends
    /// holding a result the callback could return for the stored tensor.
    /// The callback must keep the element kind, which is the slot's
    /// erasure discriminant.
    pub fn apply<F: Fn(Tensor) -> Tensor>(&self, table: &mut VarTable, callback: F) -> (r: Result<
        (),
        Fatal,
    >)
        requires
            kind_ok(old(table)@, self.id, T::kind()) ==> forall|d: Tensor|
                d@ == old(table)@[self.id as int].data ==> #[trigger] call_requires(callback, (d,)),
            forall|d: Tensor, y: Tensor| #[trigger] call_ensures(callback, (d,), y)
                ==> y@.kind == d@.kind,
        ensures
            match r {
                Ok(u) => kind_ok(old(table)@, self.id, T::kind()) && exists|d: Tensor, y: Tensor|
                    d@ == old(table)@[self.id as int].data && #[trigger] call_ensures(
                        callback,
                        (d,),
                        y,
                    ) && final(table)@ == old(table)@.update(
                        self.id as int,
                        (RecordView { data: y@, ..old(table)@[self.id as int] }),
                    ),
                Err(e) => !kind_ok(old(table)@, self.id, T::kind()) && e == access_err(
                    old(table)@,
                    self.id,
                ) && final(table)@ == old(table)@,
            },
    {
        let data = match self.fetch(table) {
            Ok(rec) => rec.data.clone(),
            Err(e) => {
                return Err(e);
            },
        };
        let ghost dv = data@;
        let fresh = callback(data);
        let r = self.set_data(table, fresh);
        proof {
            assert(r is Ok);
        }
        r
    }

    /// Detaches the variable in place: clears `requires_grad` and
    /// discards any accumulated gradient, permanently removing the node
    /// from future backward passes.
    pub fn detach_(&self, table: &mut VarTable) -> (r: Result<(), Fatal>)
        ensures
            match r {
                Ok(u) => kind_ok(old(table)@, self.id, T::kind()) && final(table)@ == old(
                    table,
                )@.update(
                    self.id as int,
                    (RecordView {
                        grad: None,
                        requires_grad: false,
                        ..old(table)@[self.id as int]
                    }),
                ),
                Err(e) => !kind_ok(old(table)@, self.id, T::kind()) && e == access_err(
                    old(table)@,
                    self.id,
                ) && final(table)@ == old(table)@,
            },
            old(table).wf() && r is Ok ==> final(table).wf(),
    {
        let (data_c, gfn, di, vo) = match self.fetch(table) {
            Ok(rec) => (rec.data.clone(), rec.grad_fn, rec.dirty, rec.volatile),
            Err(e) => {
                return Err(e);
            },
        };
        table.put(self.id as usize, VariableImpl {
            data: data_c,
            grad_fn: gfn,
            grad: None,
            dirty: di,
            volatile: vo,
            requires_grad: false,
        });
        proof {
            if old(table).wf() {
                lemma_wf_update_flags(old(table)@, self.id as int, final(table)@[self.id as int]);
            }
        }
        Ok(())
    }

    /// A fresh variable detached from the graph: it carries a copy of
    /// this variable's tensor, no creator, no gradient, and
    /// `requires_grad` false.
    pub fn detach(&self, table: &mut VarTable) -> (r: Result<Variable<T>, Fatal>)
        requires
            old(table)@.len() < SLOT_LIMIT,
        ensures
            match r {
                Ok(v) => kind_ok(old(table)@, self.id, T::kind()) && v.id as int == old(
                    table,
                )@.len() && final(table)@ == old(table)@.push(
                    (RecordView {
                        data: old(table)@[self.id as int].data,
                        grad_fn: None,
                        grad: None,
                        dirty: false,
                        volatile: old(table)@[self.id as int].volatile,
                        requires_grad: false,
                    }),
                ),
                Err(e) => !kind_ok(old(table)@, self.id, T::kind()) && e == access_err(
                    old(table)@,
                    self.id,
                ) && final(table)@ == old(table)@,
            },
            old(table).wf() && r is Ok ==> final(table).wf(),
    {
        let (data_c, vo) = match self.fetch(table) {
            Ok(rec) => (rec.data.clone(), rec.volatile),
            Err(e) => {
                return Err(e);
            },
        };
        let id = table.allocate(VariableImpl {
            data: data_c,
            grad_fn: None,
            grad: None,
            dirty: false,
            volatile: vo,
            requires_grad: false,
        });
        proof {
            if old(table).wf() {
                assert(crate::arena::slot_wf(old(table)@, self.id as int));
                lemma_wf_push_fresh(old(table)@, final(table)@.last());
                assert(old(table)@.push(final(table)@.last()) =~= final(table)@);
            }
        }
        Ok(Variable { id, marker: self.marker })
    }

    /// Flags that the tensor was mutated in place after being observed
    /// downstream; backward must reject the record from then on.
    pub fn mark_dirty(&self, table: &mut VarTable) -> (r: Result<(), Fatal>)
        ensures
            match r {
                Ok(u) => kind_ok(old(table)@, self.id, T::kind()) && final(table)@ == old(
                    table,
                )@.update(
                    self.id as int,
                    (RecordView { dirty: true, ..old(table)@[self.id as int] }),
                ),
                Err(e) => !kind_ok(old(table)@, self.id, T::kind()) && e == access_err(
                    old(table)@,
                    self.id,
                ) && final(table)@ == old(table)@,
            },
            old(table).wf() && r is Ok ==> final(table).wf(),
    {
        let (data_c, gfn, gr, vo, rq) = match self.fetch(table) {
            Ok(rec) => (rec.data.clone(), rec.grad_fn, rec.grad, rec.volatile, rec.requires_grad),
            Err(e) => {
                return Err(e);
            },
        };
        table.put(self.id as usize, VariableImpl {
            data: data_c,
            grad_fn: gfn,
            grad: gr,
            dirty: true,
            volatile: vo,
            requires_grad: rq,
        });
        proof {
            if old(table).wf() {
                lemma_wf_update_flags(old(table)@, self.id as int, final(table)@[self.id as int]);
            }
        }
        Ok(())
    }

    /// Forcibly clears `requires_grad`, keeping any accumulated gradient.
    pub fn requires_nograd(&self, table: &mut VarTable) -> (r: Result<(), Fatal>)
        ensures
            match r {
                Ok(u) => kind_ok(old(table)@, self.id, T::kind()) && final(table)@ == old(
                    table,
                )@.update(
                    self.id as int,
                    (RecordView { requires_grad: false, ..old(table)@[self.id as int] }),
                ),
                Err(e) => !kind_ok(old(table)@, self.id, T::kind()) && e == access_err(
                    old(table)@,
                    self.id,
                ) && final(table)@ == old(table)@,
            },
            old(table).wf() && r is Ok ==> final(table).wf(),
    {
        let (data_c, gfn, gr, di, vo) = match self.fetch(table) {
            Ok(rec) => (rec.data.clone(), rec.grad_fn, rec.grad, rec.dirty, rec.volatile),
            Err(e) => {
                return Err(e);
            },
        };
        table.put(self.id as usize, VariableImpl {
            data: data_c,
            grad_fn: gfn,
            grad: gr,
            dirty: di,
            volatile: vo,
            requires_grad: false,
        });
        proof {
            if old(table).wf() {
                lemma_wf_update_flags(old(table)@, self.id as int, final(table)@[self.id as int]);
            }
        }
        Ok(())
    }

    /// Overwrites this variable's creator, gradient and flags from
    /// another record of the same element type, preserving its own tensor
    /// data.
    pub fn copy_refs(&self, table: &mut VarTable, rhs: &Variable<T>) -> (r: Result<(), Fatal>)
        ensures
            match r {
                Ok(u) => kind_ok(old(table)@, self.id, T::kind()) && kind_ok(
                    old(table)@,
                    rhs.id,
                    T::kind(),
                ) && final(table)@ == old(table)@.update(
                    self.id as int,
                    (RecordView {
                        data: old(table)@[self.id as int].data,
                        ..old(table)@[rhs.id as int]
                    }),
                ),
                Err(e) => final(table)@ == old(table)@ && (
                    !kind_ok(old(table)@, self.id, T::kind()) && e == access_err(
                        old(table)@,
                        self.id,
                    ) || kind_ok(old(table)@, self.id, T::kind()) && !kind_ok(
                        old(table)@,
                        rhs.id,
                        T::kind(),
                    ) && e == access_err(old(table)@, rhs.id)),
            },
    {
        let data_c = match self.fetch(table) {
            Ok(rec) => rec.data.clone(),
            Err(e) => {
                return Err(e);
            },
        };
        let (gfn, gr, di, vo, rq) = match rhs.fetch(table) {
            Ok(rec) => (rec.grad_fn, rec.grad, rec.dirty, rec.volatile, rec.requires_grad),
            Err(e) => {
                return Err(e);
            },
        };
        table.put(self.id as usize, VariableImpl {
            data: data_c,
            grad_fn: gfn,
            grad: gr,
            dirty: di,
            volatile: vo,
            requires_grad: rq,
        });
        Ok(())
    }
}

/// Updating a record in place with its own tensor and a gradient id it
/// already had — or none — keeps a table consistent, whatever the flags
/// became.
proof fn lemma_wf_update_flags(t: Seq<RecordView>, i: int, r: RecordView)
    requires
        crate::arena::table_wf(t),
        0 <= i < t.len(),
        r.data == t[i].data,
        r.grad is Some ==> r.grad == t[i].grad,
    ensures
        crate::arena::table_wf(t.update(i, r)),
{
    let t2 = t.update(i, r);
    assert forall|j: int| 0 <= j < t2.len() implies crate::arena::slot_wf(t2, j) by {
        assert(crate::arena::slot_wf(t, j));
        if j != i {
            assert(t2[j] == t[j]);
        }
    }
}

/// A type-erased variable handle: the discriminant names the element
/// kind of the record the handle points at.  Two erased handles are equal
/// exactly when they agree on element kind and variable id, which makes
/// them usable as graph-traversal visited-set keys.
#[derive(Clone, Copy, Debug, Hash)]
pub enum VarKind {
    FloatVariable(Variable<FloatElem>),
    LongVariable(Variable<LongElem>),
}

impl Eq for VarKind {

}

impl PartialEq for VarKind {
    /// Erased handles are compared by element kind and variable id
    /// alone.
    fn eq(&self, other: &VarKind) -> (r: bool)
    {
        match (self, other) {
            (VarKind::FloatVariable(a), VarKind::FloatVariable(b)) => a.id == b.id,
            (VarKind::LongVariable(a), VarKind::LongVariable(b)) => a.id == b.id,
            _ => false,
        }
    }
}

impl vstd::std_specs::cmp::PartialEqSpecImpl for VarKind {
    open spec fn obeys_eq_spec() -> bool {
        true
    }

    open spec fn eq_spec(&self, other: &VarKind) -> bool {
        self.kind() == other.kind() && self.vid() == other.vid()
    }
}

impl VarKind {
    /// The element kind the handle carries.
    pub open spec fn kind(self) -> ElementKind {
        match self {
            VarKind::FloatVariable(_) => ElementKind::Float32,
            VarKind::LongVariable(_) => ElementKind::Int64,
        }
    }

    /// The arena id the handle names.
    pub open spec fn vid(self) -> VarId {
        match self {
            VarKind::FloatVariable(v) => v.id,
            VarKind::LongVariable(v) => v.id,
        }
    }

    /// The element kind, as a runtime value.
    pub fn element_kind(&self) -> (k: ElementKind)
        ensures
            k == self.kind(),
    {
        match self {
            VarKind::FloatVariable(_) => ElementKind::Float32,
            VarKind::LongVariable(_) => ElementKind::Int64,
        }
    }

    /// The arena id, as a runtime value.
    pub fn varid(&self) -> (r: VarId)
        ensures
            r == self.vid(),
    {
        match self {
            VarKind::FloatVariable(v) => v.id,
            VarKind::LongVariable(v) => v.id,
        }
    }

    /// Wraps an erased tensor into a fresh variable of the matching
    /// element kind.
    pub fn new_args(table: &mut VarTable, data: Tensor, args: &VariableArgs) -> (r: VarKind)
        requires
            data@.wf(),
            old(table)@.len() < SLOT_LIMIT,
        ensures
            r.kind() == data@.kind,
            r.vid() as int == old(table)@.len(),
            final(table)@ == old(table)@.push(fresh_record(data@, *args)),
            old(table).wf() ==> final(table).wf(),
    {
        let k = data.kind;
        match k {
            ElementKind::Float32 => VarKind::FloatVariable(
                <Variable<FloatElem> as VarAccess<FloatElem>>::new_args(table, data, args),
            ),
            ElementKind::Int64 => VarKind::LongVariable(
                <Variable<LongElem> as VarAccess<LongElem>>::new_args(table, data, args),
            ),
        }
    }

    /// Wraps an erased tensor into a fresh variable with the default
    /// configuration.
    pub fn new(table: &mut VarTable, data: Tensor) -> (r: VarKind)
        requires
            data@.wf(),
            old(table)@.len() < SLOT_LIMIT,
        ensures
            r.kind() == data@.kind,
            r.vid() as int == old(table)@.len(),
            final(table)@ == old(table)@.push(
                fresh_record(data@, (VariableArgs { creator: None, volatile: false, requires_grad: true })),
            ),
            old(table).wf() ==> final(table).wf(),
    {
        let args = VariableArgs::default();
        VarKind::new_args(table, data, &args)
    }

    /// The erased handle for a live id, tagged with the element kind
    /// stored at that slot.
    pub fn from_id(table: &VarTable, id: VarId) -> (r: Result<VarKind, Fatal>)
        ensures
            match r {
                Ok(vk) => table.valid_id(id) && vk.vid() == id
                    && vk.kind() == table@[id as int].data.kind,
                Err(e) => !table.valid_id(id) && e == Fatal::OutOfBounds,
            },
    {
        match table.get(id) {
            Ok(rec) => match rec.data.kind {
                ElementKind::Float32 => Ok(VarKind::FloatVariable(Variable { id, marker: FloatElem })),
                ElementKind::Int64 => Ok(VarKind::LongVariable(Variable { id, marker: LongElem })),
            },
            Err(e) => Err(e),
        }
    }

    /// Casts the erased handle to a concrete element type.  The cast
    /// fails exactly when the requested kind is not the one the handle
    /// carries — a programmer error, not a recoverable state.
    pub fn typed<T: Elem>(self) -> (r: Result<Variable<T>, Fatal>)
        ensures
            match r {
                Ok(v) => T::kind() == self.kind() && v.id == self.vid(),
                Err(e) => T::kind() != self.kind() && e == Fatal::KindMismatch,
            },
    {
        let k = T::kind_value();
        let matches_kind = match self {
            VarKind::FloatVariable(_) => k == ElementKind::Float32,
            VarKind::LongVariable(_) => k == ElementKind::Int64,
        };
        if matches_kind {
            Ok(Variable { id: self.varid(), marker: T::mk() })
        } else {
            Err(Fatal::KindMismatch)
        }
    }

    /// Whether the variable is permanently excluded from backward.
    pub fn is_volatile(&self, table: &VarTable) -> (r: Result<bool, Fatal>)
        ensures
            match r {
                Ok(b) => kind_ok(table@, self.vid(), self.kind()) && b == table@[self.vid() as int].volatile,
                Err(e) => !kind_ok(table@, self.vid(), self.kind()) && e == access_err(table@, self.vid()),
            },
    {
        match self {
            VarKind::FloatVariable(v) => v.is_volatile(table),
            VarKind::LongVariable(v) => v.is_volatile(table),
        }
    }

    /// Whether the variable takes part in gradient tracking.
    pub fn requires_grad(&self, table: &VarTable) -> (r: Result<bool, Fatal>)
        ensures
            match r {
                Ok(b) => kind_ok(table@, self.vid(), self.kind()) && b == table@[self.vid() as int].requires_grad,
                Err(e) => !kind_ok(table@, self.vid(), self.kind()) && e == access_err(table@, self.vid()),
            },
    {
        match self {
            VarKind::FloatVariable(v) => v.requires_grad(table),
            VarKind::LongVariable(v) => v.requires_grad(table),
        }
    }

    /// The reference to the producing operation, if any.
    pub fn grad_fn(&self, table: &VarTable) -> (r: Result<Option<FuncId>, Fatal>)
        ensures
            match r {
                Ok(f) => kind_ok(table@, self.vid(), self.kind()) && f == table@[self.vid() as int].grad_fn,
                Err(e) => !kind_ok(table@, self.vid(), self.kind()) && e == access_err(table@, self.vid()),
            },
    {
        match self {
            VarKind::FloatVariable(v) => v.grad_fn(table),
            VarKind::LongVariable(v) => v.grad_fn(table),
        }
    }

    /// A snapshot of the erased tensor payload.
    pub fn data(&self, table: &VarTable) -> (r: Result<Tensor, Fatal>)
        ensures
            match r {
                Ok(t) => kind_ok(table@, self.vid(), self.kind()) && t@ == table@[self.vid() as int].data,
                Err(e) => !kind_ok(table@, self.vid(), self.kind()) && e == access_err(table@, self.vid()),
            },
    {
        match self {
            VarKind::FloatVariable(v) => v.data(table),
            VarKind::LongVariable(v) => v.data(table),
        }
    }

    /// A snapshot of the erased tensor payload; same view as
    /// [`VarKind::data`].
    pub fn data_borrow(&self, table: &VarTable) -> (r: Result<Tensor, Fatal>)
        ensures
            match r {
                Ok(t) => kind_ok(table@, self.vid(), self.kind()) && t@ == table@[self.vid() as int].data,
                Err(e) => !kind_ok(table@, self.vid(), self.kind()) && e == access_err(table@, self.vid()),
            },
    {
        self.data(table)
    }

    /// The identity tag of the tensor payload.
    pub fn tid(&self, table: &VarTable) -> (r: Result<usize, Fatal>)
        ensures
            match r {
                Ok(t) => kind_ok(table@, self.vid(), self.kind()) && t as nat == table@[self.vid() as int].data.tid,
                Err(e) => !kind_ok(table@, self.vid(), self.kind()) && e == access_err(table@, self.vid()),
            },
    {
        match self {
            VarKind::FloatVariable(v) => v.tid(table),
            VarKind::LongVariable(v) => v.tid(table),
        }
    }

    /// Forcibly clears `requires_grad`.
    pub fn requires_nograd(&self, table: &mut VarTable) -> (r: Result<(), Fatal>)
        ensures
            match r {
                Ok(u) => kind_ok(old(table)@, self.vid(), self.kind()) && final(table)@ == old(table)@.update(
                    self.vid() as int,
                    (RecordView { requires_grad: false, ..old(table)@[self.vid() as int] }),
                ),
                Err(e) => !kind_ok(old(table)@, self.vid(), self.kind()) && e == access_err(old(table)@, self.vid())
                    && final(table)@ == old(table)@,
            },
            old(table).wf() && r is Ok ==> final(table).wf(),
    {
        match self {
            VarKind::FloatVariable(v) => v.requires_nograd(table),
            VarKind::LongVariable(v) => v.requires_nograd(table),
        }
    }
}

} // verus!
