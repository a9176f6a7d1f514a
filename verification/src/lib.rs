//! Core of a reverse-mode automatic-differentiation engine for tensor
//! computations.
//!
//! A computation graph is stored in an explicit, growable arena of variable
//! records ([`arena::VarTable`]), indexed by small integer ids.  Typed
//! handles ([`variable::Variable`]) and type-erased handles
//! ([`variable::VarKind`]) name arena slots; the backward-accumulation
//! protocol ([`engine`]) seeds a gradient at a root variable and sums
//! incoming gradients into each visited record.
//!
//! Tensors are carried as plain values: an element kind, a shape, and one
//! 64-bit word per element.  The element-wise math beyond gradient
//! accumulation is owned by the surrounding tensor library, not by this
//! core.

pub mod arena;
pub mod engine;
pub mod laws;
pub mod tensor;
pub mod variable;

use vstd::prelude::*;

verus! {

/// The unrecoverable failures of the graph core.  Every one of them marks a
/// programmer error; a backward pass that meets one is aborted as a whole.
#[derive(Clone, Copy, Debug, PartialEq, Eq, Hash, Structural)]
pub enum Fatal {
    /// An erased handle was cast to a concrete element type other than the
    /// one it carries.
    KindMismatch,
    /// A variable id is negative or does not index a live arena slot.
    OutOfBounds,
    /// Backward accumulation reached a record whose tensor was mutated in
    /// place after being observed downstream.
    DirtyRecord,
    /// Backward was invoked on a volatile root.
    VolatileRoot,
    /// Backward was invoked on a root with `requires_grad` false.
    GradNotRequired,
    /// A tensor failed shape/consistency validation: it does not hold
    /// exactly as many elements as its shape calls for.
    InvalidTensor,
}

} // verus!
