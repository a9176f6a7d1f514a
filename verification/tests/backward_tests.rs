use autograd_core::Fatal;
use autograd_core::arena::VarTable;
use autograd_core::tensor::{ElementKind, Tensor};
use autograd_core::variable::{FloatElem, VarAccess, VarKind, Variable, VariableArgs};

fn float_tensor(elems: Vec<i64>) -> Tensor {
    let n = elems.len();
    Tensor::new(0, ElementKind::Float32, vec![n], elems)
}

fn grad_elems(t: &VarTable, v: &Variable<FloatElem>) -> Vec<i64> {
    let gid = v.grad(t).unwrap().expect("no gradient stored");
    t.get(gid).unwrap().data.elems.clone()
}

#[test]
fn backward_without_seed_uses_ones() {
    let mut t = VarTable::new();
    let v = Variable::<FloatElem>::new(&mut t, float_tensor(vec![5, 6, 7]));
    let edges = v.backward(&mut t).unwrap();
    assert!(edges.is_empty());
    assert_eq!(grad_elems(&t, &v), vec![1, 1, 1]);
    let gid = v.grad(&t).unwrap().unwrap();
    assert_eq!(t.get(gid).unwrap().data.shape, vec![3]);
    assert_eq!(t.get(gid).unwrap().data.kind, ElementKind::Float32);
}

#[test]
fn backward_with_seed_stores_seed() {
    let mut t = VarTable::new();
    let v = Variable::<FloatElem>::new(&mut t, float_tensor(vec![0, 0]));
    let seed = float_tensor(vec![2, 3]);
    v.backward_args(&mut t, Some(&seed), false).unwrap();
    assert_eq!(grad_elems(&t, &v), vec![2, 3]);
}

#[test]
fn accumulation_is_additive() {
    let g1 = vec![1, 2, 3];
    let g2 = vec![10, 20, 30];
    let g12 = vec![11, 22, 33];

    let mut ta = VarTable::new();
    let a = Variable::<FloatElem>::new(&mut ta, float_tensor(vec![0, 0, 0]));
    a.do_backward(&mut ta, &float_tensor(g1)).unwrap();
    a.do_backward(&mut ta, &float_tensor(g2)).unwrap();

    let mut tb = VarTable::new();
    let b = Variable::<FloatElem>::new(&mut tb, float_tensor(vec![0, 0, 0]));
    b.do_backward(&mut tb, &float_tensor(g12.clone())).unwrap();

    assert_eq!(grad_elems(&ta, &a), g12);
    assert_eq!(grad_elems(&ta, &a), grad_elems(&tb, &b));
}

#[test]
fn repeated_backward_sums_contributions() {
    let mut t = VarTable::new();
    let v = Variable::<FloatElem>::new(&mut t, float_tensor(vec![0, 0]));
    v.backward(&mut t).unwrap();
    v.backward(&mut t).unwrap();
    assert_eq!(grad_elems(&t, &v), vec![2, 2]);
}

#[test]
fn accumulation_wraps_on_overflow() {
    let mut t = VarTable::new();
    let v = Variable::<FloatElem>::new(&mut t, float_tensor(vec![0]));
    v.do_backward(&mut t, &float_tensor(vec![i64::MAX])).unwrap();
    v.do_backward(&mut t, &float_tensor(vec![1])).unwrap();
    assert_eq!(grad_elems(&t, &v), vec![i64::MIN]);
}

#[test]
fn backward_on_volatile_root_fails() {
    let mut t = VarTable::new();
    let args = VariableArgs::build().volatile(true).done();
    let v = <Variable<FloatElem> as VarAccess<FloatElem>>::new_args(
        &mut t,
        float_tensor(vec![1]),
        &args,
    );
    assert_eq!(v.backward(&mut t).unwrap_err(), Fatal::VolatileRoot);
    assert_eq!(t.len(), 1);
    assert_eq!(v.grad(&t), Ok(None));
}

#[test]
fn backward_without_requires_grad_fails() {
    let mut t = VarTable::new();
    let args = VariableArgs::build().requires_grad(false).done();
    let v = <Variable<FloatElem> as VarAccess<FloatElem>>::new_args(
        &mut t,
        float_tensor(vec![1]),
        &args,
    );
    assert_eq!(v.backward(&mut t).unwrap_err(), Fatal::GradNotRequired);
    assert_eq!(t.len(), 1);
    assert_eq!(v.grad(&t), Ok(None));
}

#[test]
fn backward_on_dirty_record_fails_and_keeps_grad() {
    let mut t = VarTable::new();
    let v = Variable::<FloatElem>::new(&mut t, float_tensor(vec![0, 0]));
    v.do_backward(&mut t, &float_tensor(vec![4, 5])).unwrap();
    v.mark_dirty(&mut t).unwrap();
    let len_before = t.len();
    assert_eq!(v.backward(&mut t).unwrap_err(), Fatal::DirtyRecord);
    assert_eq!(t.len(), len_before);
    assert_eq!(grad_elems(&t, &v), vec![4, 5]);
}

#[test]
fn backward_on_wrong_kind_slot_fails() {
    let mut t = VarTable::new();
    Variable::<FloatElem>::new(&mut t, float_tensor(vec![0]));
    let wrong = autograd_core::variable::Variable::<autograd_core::variable::LongElem> {
        id: 0,
        marker: autograd_core::variable::LongElem,
    };
    assert_eq!(wrong.backward(&mut t).unwrap_err(), Fatal::KindMismatch);
    let seed = Tensor::new(0, ElementKind::Int64, vec![1], vec![1]);
    assert_eq!(
        wrong.backward_args(&mut t, Some(&seed), false).unwrap_err(),
        Fatal::KindMismatch
    );
    assert_eq!(wrong.do_backward(&mut t, &seed).unwrap_err(), Fatal::KindMismatch);
    let stale_erased = VarKind::LongVariable(wrong);
    assert_eq!(
        stale_erased.do_backward(&mut t, &Some(seed)).unwrap_err(),
        Fatal::KindMismatch
    );
    // nothing was accumulated anywhere
    assert_eq!(t.len(), 1);
    assert_eq!(t.get(0).unwrap().grad, None);
}

#[test]
fn backward_on_dead_id_fails() {
    let mut t = VarTable::new();
    let ghost_var: Variable<FloatElem> = Variable::default();
    assert_eq!(ghost_var.backward(&mut t).unwrap_err(), Fatal::OutOfBounds);
}

#[test]
fn detach_clears_grad_and_blocks_backward() {
    let mut t = VarTable::new();
    let v = Variable::<FloatElem>::new(&mut t, float_tensor(vec![0]));
    v.backward(&mut t).unwrap();
    assert!(v.grad(&t).unwrap().is_some());
    v.detach_(&mut t).unwrap();
    assert_eq!(v.grad(&t), Ok(None));
    assert_eq!(v.requires_grad(&t), Ok(false));
    assert_eq!(v.backward(&mut t).unwrap_err(), Fatal::GradNotRequired);
}

#[test]
fn backward_hands_out_creator_edge() {
    let mut t = VarTable::new();
    let args = VariableArgs::build().creator(Some(11)).done();
    let v = <Variable<FloatElem> as VarAccess<FloatElem>>::new_args(
        &mut t,
        float_tensor(vec![0, 0]),
        &args,
    );
    let edges = v.backward(&mut t).unwrap();
    assert_eq!(edges.len(), 1);
    assert_eq!(edges[0].0, 11);
    assert_eq!(edges[0].1.elems, vec![1, 1]);
}

#[test]
fn erased_do_backward_dispatches() {
    let mut t = VarTable::new();
    Variable::<FloatElem>::new(&mut t, float_tensor(vec![0]));
    let vk = VarKind::from_id(&t, 0).unwrap();
    vk.do_backward(&mut t, &Some(float_tensor(vec![6]))).unwrap();
    let typed: Variable<FloatElem> = vk.typed().unwrap();
    assert_eq!(grad_elems(&t, &typed), vec![6]);
}

#[test]
fn erased_do_backward_without_gradient_is_a_no_op() {
    let mut t = VarTable::new();
    Variable::<FloatElem>::new(&mut t, float_tensor(vec![0]));
    let vk = VarKind::from_id(&t, 0).unwrap();
    vk.do_backward(&mut t, &None).unwrap();
    assert_eq!(t.len(), 1);
    let typed: Variable<FloatElem> = vk.typed().unwrap();
    assert_eq!(typed.grad(&t), Ok(None));
}

#[test]
fn fresh_float_root_gets_all_ones_gradient() {
    let mut t = VarTable::new();
    let data = Tensor::new(0, ElementKind::Float32, vec![2, 2], vec![3, 1, 4, 1]);
    let a = Variable::<FloatElem>::new(&mut t, data);
    assert_eq!(a.grad_fn(&t), Ok(None));
    assert_eq!(a.requires_grad(&t), Ok(true));
    a.backward(&mut t).unwrap();
    let gid = a.grad(&t).unwrap().unwrap();
    let grad = &t.get(gid).unwrap().data;
    assert_eq!(grad.elems, vec![1, 1, 1, 1]);
    assert_eq!(grad.shape, vec![2, 2]);
    assert_eq!(grad.kind, ElementKind::Float32);
}
