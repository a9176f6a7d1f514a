//! The backward-accumulation protocol.
//!
//! A backward pass starts at a root variable: the root must be neither
//! volatile nor excluded from gradient tracking, a seed gradient is taken
//! or synthesized as all ones, and the accumulation step is applied to the
//! root's record.  Walking creator links across many-node graphs is owned
//! by the surrounding framework; this core hands it the pending
//! (creator, gradient) edge of each seeded root and guarantees the
//! accumulation step's effect at every record it is applied to.

use crate::Fatal;
use crate::arena::{FuncId, RecordView, SLOT_LIMIT, VarId, VarTable, VariableImpl, slot_wf, table_wf};
use crate::tensor::{Tensor, TensorView, accum_seq, const_seq};
use crate::variable::{Elem, VarAccess, VarKind, Variable, access_err, kind_ok};
use vstd::prelude::*;

verus! {

/// The record of a freshly minted gradient slot: it carries the
/// accumulated words with the owner's kind and shape, no creator, no
/// gradient of its own, and the default flags.
pub open spec fn grad_record(owner: RecordView, elems: Seq<i64>) -> RecordView {
    RecordView {
        data: TensorView { tid: 0, kind: owner.data.kind, shape: owner.data.shape, elems },
        grad_fn: None,
        grad: None,
        dirty: false,
        volatile: false,
        requires_grad: true,
    }
}

/// The accumulation step's effect on a table, for a live, non-dirty id:
/// if the record already has a gradient slot, the delivered words are
/// added into it element by element; otherwise a fresh slot is minted
/// holding exactly the delivered words (a zero tensor plus the incoming
/// gradient), and the record points at it.
pub open spec fn accum_step(t: Seq<RecordView>, id: VarId, g: TensorView) -> Seq<RecordView> {
    let rec = t[id as int];
    match rec.grad {
        Some(gid) => t.update(
            gid as int,
            (RecordView {
                data: (TensorView {
                    elems: accum_seq(t[gid as int].data.elems, g.elems),
                    ..t[gid as int].data
                }),
                ..t[gid as int]
            }),
        ),
        None => t.update(id as int, (RecordView { grad: Some(t.len() as VarId), ..rec })).push(
            grad_record(rec, g.elems),
        ),
    }
}

/// The whole accumulation step, checks included: out-of-bounds ids and
/// dirty records fail fatally and leave the table untouched.
pub open spec fn backward_step(t: Seq<RecordView>, id: VarId, g: TensorView) -> Result<
    Seq<RecordView>,
    Fatal,
> {
    if !(0 <= id && (id as int) < t.len()) {
        Err(Fatal::OutOfBounds)
    } else if t[id as int].dirty {
        Err(Fatal::DirtyRecord)
    } else {
        Ok(accum_step(t, id, g))
    }
}

/// The admission checks a backward root must pass before any gradient
/// flows: the root must be live, not volatile, and require a gradient.
pub open spec fn backward_gate(t: Seq<RecordView>, id: VarId) -> Result<(), Fatal> {
    if !(0 <= id && (id as int) < t.len()) {
        Err(Fatal::OutOfBounds)
    } else if t[id as int].volatile {
        Err(Fatal::VolatileRoot)
    } else if !t[id as int].requires_grad {
        Err(Fatal::GradNotRequired)
    } else {
        Ok(())
    }
}

/// The seed gradient of a backward pass: the given tensor, or — with no
/// explicit seed — a tensor of ones shaped like the root's data.
pub open spec fn seed_for(rec: RecordView, g: Option<TensorView>) -> TensorView {
    match g {
        Some(v) => v,
        None => rec.data.ones_like(),
    }
}

/// A backward pass from one root: admission checks, then the
/// accumulation step with the seed.
pub open spec fn backward_outcome(t: Seq<RecordView>, id: VarId, g: Option<TensorView>) -> Result<
    Seq<RecordView>,
    Fatal,
> {
    match backward_gate(t, id) {
        Err(e) => Err(e),
        Ok(u) => backward_step(t, id, seed_for(t[id as int], g)),
    }
}

/// The accumulation step keeps a table consistent when the delivered
/// tensor is well formed and agrees with the record in kind and shape.
pub proof fn lemma_accum_step_wf(t: Seq<RecordView>, id: VarId, g: TensorView)
    requires
        table_wf(t),
        0 <= id && (id as int) < t.len(),
        t.len() < SLOT_LIMIT,
        g.wf(),
        g.kind == t[id as int].data.kind,
        g.shape == t[id as int].data.shape,
    ensures
        table_wf(accum_step(t, id, g)),
{
    let rec = t[id as int];
    assert(slot_wf(t, id as int));
    match rec.grad {
        Some(gid) => {
            let t2 = accum_step(t, id, g);
            assert(slot_wf(t, gid as int));
            assert(t2[gid as int].data.elems.len() == t[gid as int].data.elems.len());
            assert forall|i: int| 0 <= i < t2.len() implies slot_wf(t2, i) by {
                assert(slot_wf(t, i));
            }
        },
        None => {
            let t2 = accum_step(t, id, g);
            let fresh = grad_record(rec, g.elems);
            assert(fresh.data.wf());
            assert forall|i: int| 0 <= i < t2.len() implies slot_wf(t2, i) by {
                if i < t.len() {
                    assert(slot_wf(t, i));
                    if i == id {
                        assert(t2[i].grad == Some(t.len() as VarId));
                        assert(t2[t.len() as int] == fresh);
                    }
                }
            }
        },
    }
}

impl<T: Elem> Variable<T> {
    /// One backward accumulation at this variable's record: rejects a
    /// dirty record, then sums the delivered gradient into the record's
    /// gradient slot, minting the slot as a zero tensor first if no
    /// gradient had arrived yet.
    pub fn do_backward(&self, table: &mut VarTable, grad_output: &Tensor) -> (r: Result<
        (),
        Fatal,
    >)
        requires
            old(table).wf(),
            old(table)@.len() < SLOT_LIMIT,
            grad_output@.wf(),
            kind_ok(old(table)@, self.id, T::kind()) ==> grad_output@.kind == old(
                table,
            )@[self.id as int].data.kind && grad_output@.shape == old(
                table,
            )@[self.id as int].data.shape,
        ensures
            final(table).wf(),
            !kind_ok(old(table)@, self.id, T::kind()) ==> r == Err::<(), Fatal>(
                access_err(old(table)@, self.id),
            ) && final(table)@ == old(table)@,
            kind_ok(old(table)@, self.id, T::kind()) ==> match backward_step(
                old(table)@,
                self.id,
                grad_output@,
            ) {
                Ok(t2) => r == Ok::<(), Fatal>(()) && final(table)@ == t2,
                Err(e) => r == Err::<(), Fatal>(e) && final(table)@ == old(table)@,
            },
    {
        let (dirty, grad_opt) = match self.fetch(table) {
            Ok(rec) => (rec.dirty, rec.grad),
            Err(e) => {
                return Err(e);
            },
        };
        if dirty {
            return Err(Fatal::DirtyRecord);
        }
        let idx: usize = self.id as usize;
        proof {
            assert(slot_wf(old(table)@, idx as int));
        }
        match grad_opt {
            Some(gid) => {
                let gidx: usize = gid as usize;
                let (mut gdata, gfn, ggr, gdi, gvo, grq) = match table.get(gid) {
                    Ok(grec) => (
                        grec.data.clone(),
                        grec.grad_fn,
                        grec.grad,
                        grec.dirty,
                        grec.volatile,
                        grec.requires_grad,
                    ),
                    Err(e) => {
                        proof {
                            assert(false);
                        }
                        return Err(e);
                    },
                };
                proof {
                    let t = old(table)@;
                    assert(slot_wf(t, gid as int));
                    assert(t[gid as int].data.elems.len() == crate::tensor::shape_size(
                        t[gid as int].data.shape,
                    ));
                    assert(grad_output@.elems.len() == crate::tensor::shape_size(grad_output@.shape));
                }
                gdata.add_in_place(grad_output);
                table.put(gidx, VariableImpl {
                    data: gdata,
                    grad_fn: gfn,
                    grad: ggr,
                    dirty: gdi,
                    volatile: gvo,
                    requires_grad: grq,
                });
                proof {
                    lemma_accum_step_wf(old(table)@, self.id, grad_output@);
                    assert(final(table)@ =~= accum_step(old(table)@, self.id, grad_output@));
                }
                Ok(())
            },
            None => {
                let (data_c, gfn, vo, rq) = match table.get(self.id) {
                    Ok(rec) => (rec.data.clone(), rec.grad_fn, rec.volatile, rec.requires_grad),
                    Err(e) => {
                        proof {
                            assert(false);
                        }
                        return Err(e);
                    },
                };
                let mut gdata = data_c.zeros_like();
                gdata.add_in_place(grad_output);
                let gid = table.allocate(VariableImpl {
                    data: gdata,
                    grad_fn: None,
                    grad: None,
                    dirty: false,
                    volatile: false,
                    requires_grad: true,
                });
                table.put(idx, VariableImpl {
                    data: data_c,
                    grad_fn: gfn,
                    grad: Some(gid),
                    dirty: false,
                    volatile: vo,
                    requires_grad: rq,
                });
                proof {
                    let t = old(table)@;
                    let g = grad_output@;
                    assert(accum_seq(const_seq(g.elems.len(), 0), g.elems) =~= g.elems);
                    lemma_accum_step_wf(t, self.id, g);
                    assert(final(table)@ =~= accum_step(t, self.id, g));
                }
                Ok(())
            },
        }
    }

    /// A backward pass from this variable as root.  Fails fatally on a
    /// dead id, a volatile root, a root with `requires_grad` false, or a
    /// dirty record, leaving the table untouched.  Otherwise accumulates
    /// the seed — the given gradient, or all ones shaped like the root —
    /// into the root's gradient slot and returns the pending
    /// (creator, seed) edge for the surrounding traversal, if the root
    /// has a creator.  `retain_variables` is a memory-reclamation hint
    /// for that traversal, not a correctness requirement.
    pub fn backward_args(
        &self,
        table: &mut VarTable,
        gradient: Option<&Tensor>,
        retain_variables: bool,
    ) -> (r: Result<Vec<(FuncId, Tensor)>, Fatal>)
        requires
            old(table).wf(),
            old(table)@.len() < SLOT_LIMIT,
            match gradient {
                Some(g) => g@.wf() && (kind_ok(old(table)@, self.id, T::kind())
                    ==> g@.kind == old(table)@[self.id as int].data.kind
                    && g@.shape == old(table)@[self.id as int].data.shape),
                None => true,
            },
        ensures
            final(table).wf(),
            !kind_ok(old(table)@, self.id, T::kind()) ==> r == Err::<Vec<(FuncId, Tensor)>, Fatal>(
                access_err(old(table)@, self.id),
            ) && final(table)@ == old(table)@,
            kind_ok(old(table)@, self.id, T::kind()) ==> ({
                let gv = match gradient {
                    Some(g) => Some(g@),
                    None => None::<TensorView>,
                };
                match backward_outcome(old(table)@, self.id, gv) {
                    Ok(t2) => final(table)@ == t2 && match r {
                        Ok(edges) => {
                            let seed = seed_for(old(table)@[self.id as int], gv);
                            match old(table)@[self.id as int].grad_fn {
                                Some(f) => edges@.len() == 1 && edges@[0].0 == f
                                    && edges@[0].1@ == seed,
                                None => edges@.len() == 0,
                            }
                        },
                        Err(e) => false,
                    },
                    Err(e) => r == Err::<Vec<(FuncId, Tensor)>, Fatal>(e)
                        && final(table)@ == old(table)@,
                }
            }),
    {
        let (volatile, needs_grad, creator, data_c) = match self.fetch(table) {
            Ok(rec) => (rec.volatile, rec.requires_grad, rec.grad_fn, rec.data.clone()),
            Err(e) => {
                return Err(e);
            },
        };
        if volatile {
            return Err(Fatal::VolatileRoot);
        }
        if !needs_grad {
            return Err(Fatal::GradNotRequired);
        }
        proof {
            assert(slot_wf(old(table)@, self.id as int));
        }
        let seed = match gradient {
            Some(g) => g.clone(),
            None => data_c.ones_like(),
        };
        match self.do_backward(table, &seed) {
            Ok(u) => {
                let mut edges: Vec<(FuncId, Tensor)> = Vec::new();
                match creator {
                    Some(f) => {
                        edges.push((f, seed));
                    },
                    None => {},
                }
                Ok(edges)
            },
            Err(e) => Err(e),
        }
    }

    /// A backward pass from this root with no explicit seed: the seed is
    /// a tensor of ones shaped like the root's data, per-pass state is
    /// not retained.
    pub fn backward(&self, table: &mut VarTable) -> (r: Result<Vec<(FuncId, Tensor)>, Fatal>)
        requires
            old(table).wf(),
            old(table)@.len() < SLOT_LIMIT,
        ensures
            final(table).wf(),
            !kind_ok(old(table)@, self.id, T::kind()) ==> r == Err::<Vec<(FuncId, Tensor)>, Fatal>(
                access_err(old(table)@, self.id),
            ) && final(table)@ == old(table)@,
            kind_ok(old(table)@, self.id, T::kind()) ==> match backward_outcome(
                old(table)@,
                self.id,
                None::<TensorView>,
            ) {
                Ok(t2) => final(table)@ == t2 && match r {
                    Ok(edges) => {
                        let seed = old(table)@[self.id as int].data.ones_like();
                        match old(table)@[self.id as int].grad_fn {
                            Some(f) => edges@.len() == 1 && edges@[0].0 == f
                                && edges@[0].1@ == seed,
                            None => edges@.len() == 0,
                        }
                    },
                    Err(e) => false,
                },
                Err(e) => r == Err::<Vec<(FuncId, Tensor)>, Fatal>(e)
                    && final(table)@ == old(table)@,
            },
    {
        self.backward_args(table, None, false)
    }
}

impl VarKind {
    /// One backward accumulation at the erased handle's record.  A
    /// missing gradient means nothing is delivered and nothing changes.
    pub fn do_backward(&self, table: &mut VarTable, grad_output: &Option<Tensor>) -> (r: Result<
        (),
        Fatal,
    >)
        requires
            old(table).wf(),
            old(table)@.len() < SLOT_LIMIT,
            match grad_output {
                Some(g) => g@.wf() && (kind_ok(old(table)@, self.vid(), self.kind())
                    ==> g@.kind == old(table)@[self.vid() as int].data.kind
                    && g@.shape == old(table)@[self.vid() as int].data.shape),
                None => true,
            },
        ensures
            final(table).wf(),
            match grad_output {
                Some(g) => {
                    if !kind_ok(old(table)@, self.vid(), self.kind()) {
                        r == Err::<(), Fatal>(access_err(old(table)@, self.vid()))
                            && final(table)@ == old(table)@
                    } else {
                        match backward_step(old(table)@, self.vid(), g@) {
                            Ok(t2) => r == Ok::<(), Fatal>(()) && final(table)@ == t2,
                            Err(e) => r == Err::<(), Fatal>(e) && final(table)@ == old(table)@,
                        }
                    }
                },
                None => r == Ok::<(), Fatal>(()) && final(table)@ == old(table)@,
            },
    {
        match grad_output {
            Some(g) => match self {
                VarKind::FloatVariable(v) => v.do_backward(table, g),
                VarKind::LongVariable(v) => v.do_backward(table, g),
            },
            None => Ok(()),
        }
    }
}

} // verus!
