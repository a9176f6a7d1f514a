//! The variable arena: one growable table of variable records per worker,
//! indexed by small integer ids.
//!
//! The table is an explicit value handed into every forward and backward
//! operation, so each graph is independent and disposable.  Records are
//! appended one at a time; the only reclamation is truncating a whole
//! suffix with [`VarTable::reset`], after which the discarded ids fail as
//! out-of-bounds.

use crate::Fatal;
use crate::tensor::{Tensor, TensorView};
use vstd::prelude::*;

verus! {

/// A variable id: an index into the arena of the thread that minted it.
/// `-1` is the sentinel for "no variable".
pub type VarId = i32;

/// An opaque reference to the operation that produced a variable.  The
/// surrounding function library owns what it means; this core only stores,
/// copies and compares it.
pub type FuncId = u64;

/// The sentinel id naming no variable.
pub const NO_VARIABLE: VarId = -1;

/// Ceiling on the slot count, so that every live index fits a [`VarId`].
pub const SLOT_LIMIT: usize = 0x7fff_ffff;

/// The mathematical value of one variable record.
pub ghost struct RecordView {
    pub data: TensorView,
    pub grad_fn: Option<FuncId>,
    pub grad: Option<VarId>,
    pub dirty: bool,
    pub volatile: bool,
    pub requires_grad: bool,
}

/// One variable record: the tensor payload and its gradient bookkeeping.
/// `grad`, when present, is the id of another record of the same element
/// kind and shape that holds the accumulated gradient.
#[derive(Debug)]
pub struct VariableImpl {
    pub data: Tensor,
    pub grad_fn: Option<FuncId>,
    pub grad: Option<VarId>,
    pub dirty: bool,
    pub volatile: bool,
    pub requires_grad: bool,
}

impl View for VariableImpl {
    type V = RecordView;

    open spec fn view(&self) -> RecordView {
        RecordView {
            data: self.data@,
            grad_fn: self.grad_fn,
            grad: self.grad,
            dirty: self.dirty,
            volatile: self.volatile,
            requires_grad: self.requires_grad,
        }
    }
}

impl Clone for VariableImpl {
    fn clone(&self) -> (r: Self)
        ensures
            r@ == self@,
    {
        VariableImpl {
            data: self.data.clone(),
            grad_fn: self.grad_fn,
            grad: self.grad,
            dirty: self.dirty,
            volatile: self.volatile,
            requires_grad: self.requires_grad,
        }
    }
}

impl VariableImpl {
    /// The id of the record's accumulated-gradient slot, if any gradient
    /// has been delivered since the slot was last cleared.
    pub fn grad(&self) -> (r: Option<VarId>)
        ensures
            r == self@.grad,
    {
        self.grad
    }

    /// Overwrites creator, gradient and flags from `rhs`, keeping this
    /// record's own tensor data.  Used when an in-place-rewritten result
    /// keeps its id but takes over another record's graph identity.
    pub fn copy_refs(&mut self, rhs: &VariableImpl)
        ensures
            final(self)@ == (RecordView { data: old(self)@.data, ..rhs@ }),
    {
        self.grad_fn = rhs.grad_fn;
        self.grad = rhs.grad;
        self.dirty = rhs.dirty;
        self.volatile = rhs.volatile;
        self.requires_grad = rhs.requires_grad;
    }
}

/// Consistency of the record at index `i` of a table: its tensor is
/// well formed, and its gradient slot, if present, is a live id of the
/// same element kind and shape.
pub open spec fn slot_wf(t: Seq<RecordView>, i: int) -> bool {
    &&& t[i].data.wf()
    &&& match t[i].grad {
        Some(g) => {
            &&& 0 <= g < t.len()
            &&& t[g as int].data.kind == t[i].data.kind
            &&& t[g as int].data.shape == t[i].data.shape
        },
        None => true,
    }
}

/// Consistency of a whole table: every live slot is consistent.
pub open spec fn table_wf(t: Seq<RecordView>) -> bool {
    forall|i: int| 0 <= i < t.len() ==> slot_wf(t, i)
}

/// The arena itself: an append-only ordered sequence of records with an
/// explicit truncate-to-length operation.  All record access funnels
/// through one exclusive borrow of this table at a time.
#[derive(Debug)]
pub struct VarTable {
    pub slots: Vec<VariableImpl>,
}

impl View for VarTable {
    type V = Seq<RecordView>;

    open spec fn view(&self) -> Seq<RecordView> {
        self.slots@.map_values(|r: VariableImpl| r@)
    }
}

impl VarTable {
    /// Whether `id` names a live slot.
    pub open spec fn valid_id(&self, id: VarId) -> bool {
        0 <= id && (id as int) < self@.len()
    }

    /// Consistency of the whole table; see [`table_wf`].
    pub open spec fn wf(&self) -> bool {
        table_wf(self@)
    }

    /// An empty arena.
    pub fn new() -> (r: VarTable)
        ensures
            r@ == Seq::<RecordView>::empty(),
    {
        VarTable { slots: Vec::new() }
    }

    /// Number of live slots.
    pub fn len(&self) -> (r: usize)
        ensures
            r == self@.len(),
    {
        self.slots.len()
    }

    /// Appends a record and returns its freshly minted id, the next index
    /// in order.
    pub fn allocate(&mut self, rec: VariableImpl) -> (r: VarId)
        requires
            old(self)@.len() < SLOT_LIMIT,
        ensures
            final(self)@ == old(self)@.push(rec@),
            r as int == old(self)@.len(),
    {
        let id: usize = self.slots.len();
        self.slots.push(rec);
        proof {
            assert(final(self)@ =~= old(self)@.push(rec@));
        }
        id as VarId
    }

    /// Immutable access to the record at `id`; out-of-bounds ids, the
    /// negative sentinel included, fail.
    pub fn get(&self, id: VarId) -> (r: Result<&VariableImpl, Fatal>)
        ensures
            match r {
                Ok(rec) => self.valid_id(id) && rec@ == self@[id as int],
                Err(e) => !self.valid_id(id) && e == Fatal::OutOfBounds,
            },
    {
        if id >= 0 && (id as usize) < self.slots.len() {
            Ok(&self.slots[id as usize])
        } else {
            Err(Fatal::OutOfBounds)
        }
    }

    /// Replaces the record at a live index.
    pub fn put(&mut self, idx: usize, rec: VariableImpl)
        requires
            idx < old(self)@.len(),
        ensures
            final(self)@ == old(self)@.update(idx as int, rec@),
    {
        self.slots[idx] = rec;
        proof {
            assert(final(self)@ =~= old(self)@.update(idx as int, rec@));
        }
    }

    /// Truncates the arena to `max + 1` records, discarding every record
    /// with a larger id — the only reclamation mechanism.  A `max` below
    /// the sentinel `-1`, or at or above the current length, leaves the
    /// table as it is; `max == -1` discards everything.
    pub fn reset(&mut self, max: VarId)
        ensures
            final(self)@ == (if -1 <= max && (max as int) + 1 <= old(self)@.len() {
                old(self)@.take((max as int) + 1)
            } else {
                old(self)@
            }),
    {
        if max >= -1 {
            let keep = ((max as i64) + 1) as usize;
            self.slots.truncate(keep);
            proof {
                if (max as int) + 1 <= old(self)@.len() {
                    assert(final(self)@ =~= old(self)@.take((max as int) + 1));
                } else {
                    assert(final(self)@ =~= old(self)@);
                }
            }
        } else {
            proof {
                assert(final(self)@ =~= old(self)@);
            }
        }
    }
}

/// Truncates a variable table to ids `0 ..= max`; see [`VarTable::reset`].
pub fn var_table_reset(table: &mut VarTable, max: VarId)
    ensures
        final(table)@ == (if -1 <= max && (max as int) + 1 <= old(table)@.len() {
            old(table)@.take((max as int) + 1)
        } else {
            old(table)@
        }),
{
    table.reset(max)
}

} // verus!
