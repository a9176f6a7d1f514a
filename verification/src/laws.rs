//! The laws the graph core obeys, each proved against the same spec
//! functions its executable contracts use.

use crate::Fatal;
use crate::arena::{RecordView, VarId};
use crate::engine::{accum_step, backward_outcome, backward_step, seed_for};
use crate::tensor::{TensorView, accum_seq, wrap_add};
use crate::variable::VarKind;
use vstd::prelude::*;
use vstd::std_specs::cmp::PartialEqSpec;

verus! {

/// The element words stored in the accumulated-gradient slot of the
/// record at `id`, if any gradient has been delivered.
pub open spec fn stored_grad(t: Seq<RecordView>, id: VarId) -> Option<Seq<i64>> {
    match t[id as int].grad {
        Some(g) => Some(t[g as int].data.elems),
        None => None,
    }
}

/// Erased-handle equality is agreement on element kind and variable id,
/// and nothing else: what the `==` of two erased handles returns, what
/// their values being equal means, and the (kind, id) pair all coincide.
pub proof fn lemma_erased_eq_by_kind_and_id(a: VarKind, b: VarKind)
    ensures
        a.eq_spec(&b) <==> (a.kind() == b.kind() && a.vid() == b.vid()),
        (a == b) <==> (a.kind() == b.kind() && a.vid() == b.vid()),
{
    match (a, b) {
        (VarKind::FloatVariable(x), VarKind::FloatVariable(y)) => {
            assert(x.marker == y.marker);
        },
        (VarKind::LongVariable(x), VarKind::LongVariable(y)) => {
            assert(x.marker == y.marker);
        },
        _ => {},
    }
}

/// Element accumulation associates: delivering `b` and then `c` lands on
/// the same word as delivering their sum, whatever word was stored.
pub proof fn lemma_wrap_add_assoc(a: i64, b: i64, c: i64)
    ensures
        wrap_add(wrap_add(a, b), c) == wrap_add(a, wrap_add(b, c)),
{
}

/// Sequence accumulation associates element by element.
pub proof fn lemma_accum_seq_assoc(a: Seq<i64>, b: Seq<i64>, c: Seq<i64>)
    requires
        a.len() == b.len(),
        b.len() == c.len(),
    ensures
        accum_seq(accum_seq(a, b), c) == accum_seq(a, accum_seq(b, c)),
{
    assert forall|i: int| 0 <= i < a.len() implies accum_seq(accum_seq(a, b), c)[i] == accum_seq(
        a,
        accum_seq(b, c),
    )[i] by {
        lemma_wrap_add_assoc(a[i], b[i], c[i]);
    }
    assert(accum_seq(accum_seq(a, b), c) =~= accum_seq(a, accum_seq(b, c)));
}

/// Accumulation is additive: applying gradients `g1` then `g2` to a
/// fresh record — one with no gradient delivered yet — stores the same
/// gradient as applying their element-wise sum `g12` directly.
pub proof fn lemma_accumulation_additive(
    t: Seq<RecordView>,
    id: VarId,
    g1: TensorView,
    g2: TensorView,
    g12: TensorView,
)
    requires
        0 <= id && (id as int) < t.len(),
        t.len() < crate::arena::SLOT_LIMIT,
        t[id as int].grad is None,
        g1.elems.len() == g2.elems.len(),
        g12.elems == accum_seq(g1.elems, g2.elems),
    ensures
        stored_grad(accum_step(accum_step(t, id, g1), id, g2), id) == Some(
            accum_seq(g1.elems, g2.elems),
        ),
        stored_grad(accum_step(t, id, g12), id) == Some(accum_seq(g1.elems, g2.elems)),
{
    let gid = t.len() as int;
    let t1 = accum_step(t, id, g1);
    assert(t1[id as int].grad == Some(t.len() as VarId));
    assert(t1[gid].data.elems == g1.elems);
    let t2 = accum_step(t1, id, g2);
    assert(t2[id as int].grad == Some(t.len() as VarId));
    assert(t2[gid].data.elems == accum_seq(g1.elems, g2.elems));
}

/// Accumulation stays additive once a gradient slot exists: a record
/// consumed by several downstream operations may receive `g1` and `g2`
/// along different paths, and the table ends exactly as if their sum had
/// arrived at once.
pub proof fn lemma_accumulation_additive_seeded(
    t: Seq<RecordView>,
    id: VarId,
    gid: VarId,
    g1: TensorView,
    g2: TensorView,
    g12: TensorView,
)
    requires
        0 <= id && (id as int) < t.len(),
        t[id as int].grad == Some(gid),
        0 <= gid && (gid as int) < t.len(),
        t[gid as int].data.elems.len() == g1.elems.len(),
        g1.elems.len() == g2.elems.len(),
        g12.elems == accum_seq(g1.elems, g2.elems),
    ensures
        accum_step(accum_step(t, id, g1), id, g2) == accum_step(t, id, g12),
{
    let a = t[gid as int].data.elems;
    lemma_accum_seq_assoc(a, g1.elems, g2.elems);
    let t1 = accum_step(t, id, g1);
    assert(t1[id as int].grad == Some(gid));
    assert(t1[gid as int].data.elems == accum_seq(a, g1.elems));
    assert(accum_step(t1, id, g2) =~= accum_step(t, id, g12));
}

/// An unseeded backward pass is seeded with the all-ones tensor shaped
/// like the root's data.
pub proof fn lemma_default_seed_is_ones(rec: RecordView)
    ensures
        seed_for(rec, None) == rec.data.ones_like(),
{
}

/// The fatal rejections of a backward pass, in the order they are
/// checked: a dead root id, a volatile root, a root excluded from
/// gradient tracking, and a dirty record.  The accumulation step never
/// runs for any of them.  (The typed entry points additionally reject a
/// root whose stored element kind differs from the handle's, before the
/// volatile check; their contracts state this through `kind_ok` and
/// `access_err`.)
pub proof fn lemma_backward_rejections(t: Seq<RecordView>, id: VarId, g: Option<TensorView>)
    ensures
        !(0 <= id && (id as int) < t.len()) ==> backward_outcome(t, id, g) == Err::<
            Seq<RecordView>,
            Fatal,
        >(Fatal::OutOfBounds),
        0 <= id && (id as int) < t.len() && t[id as int].volatile ==> backward_outcome(t, id, g)
            == Err::<Seq<RecordView>, Fatal>(Fatal::VolatileRoot),
        0 <= id && (id as int) < t.len() && !t[id as int].volatile
            && !t[id as int].requires_grad ==> backward_outcome(t, id, g) == Err::<
            Seq<RecordView>,
            Fatal,
        >(Fatal::GradNotRequired),
        0 <= id && (id as int) < t.len() && !t[id as int].volatile && t[id as int].requires_grad
            && t[id as int].dirty ==> backward_outcome(t, id, g) == Err::<
            Seq<RecordView>,
            Fatal,
        >(Fatal::DirtyRecord),
{
}

/// Detaching a variable in place clears `requires_grad` and discards the
/// stored gradient, and a later backward attempt on it fails fatally: as
/// long as the record is not volatile, with `GradNotRequired`.
pub proof fn lemma_detached_root_rejected(t: Seq<RecordView>, id: VarId, g: Option<TensorView>)
    requires
        0 <= id && (id as int) < t.len(),
    ensures
        ({
            let t2 = t.update(
                id as int,
                (RecordView { grad: None, requires_grad: false, ..t[id as int] }),
            );
            &&& stored_grad(t2, id) is None
            &&& backward_outcome(t2, id, g) == Err::<Seq<RecordView>, Fatal>(
                if t[id as int].volatile {
                    Fatal::VolatileRoot
                } else {
                    Fatal::GradNotRequired
                },
            )
        }),
{
}

/// Truncating the arena to ids `0 ..= max` leaves exactly `max + 1`
/// slots live, and every access with a larger id — or a negative one —
/// is out of bounds from then on.
pub proof fn lemma_reset_bounds(t: Seq<RecordView>, max: VarId, id: VarId)
    requires
        -1 <= max,
        (max as int) + 1 <= t.len(),
    ensures
        ({
            let t2 = t.take((max as int) + 1);
            &&& t2.len() == (max as int) + 1
            &&& (id > max || id < 0) ==> !(0 <= id && (id as int) < t2.len())
            &&& (id > max || id < 0) ==> forall|gv: TensorView|
                backward_step(t2, id, gv) == Err::<Seq<RecordView>, Fatal>(Fatal::OutOfBounds)
        }),
{
}

} // verus!
