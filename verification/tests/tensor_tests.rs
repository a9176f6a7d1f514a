use autograd_core::Fatal;
use autograd_core::tensor::{ElementKind, Tensor};

#[test]
fn ones_like_matches_shape_and_kind() {
    let t = Tensor::new(3, ElementKind::Float32, vec![2, 2], vec![5, 6, 7, 8]);
    let ones = t.ones_like();
    assert_eq!(ones.tid, 0);
    assert_eq!(ones.kind, ElementKind::Float32);
    assert_eq!(ones.shape, vec![2, 2]);
    assert_eq!(ones.elems, vec![1, 1, 1, 1]);
}

#[test]
fn zeros_like_matches_shape_and_kind() {
    let t = Tensor::new(1, ElementKind::Int64, vec![3], vec![4, 5, 6]);
    let zeros = t.zeros_like();
    assert_eq!(zeros.kind, ElementKind::Int64);
    assert_eq!(zeros.shape, vec![3]);
    assert_eq!(zeros.elems, vec![0, 0, 0]);
}

#[test]
fn add_in_place_sums_elementwise() {
    let mut a = Tensor::new(0, ElementKind::Int64, vec![3], vec![1, 2, 3]);
    let b = Tensor::new(0, ElementKind::Int64, vec![3], vec![10, 20, 30]);
    a.add_in_place(&b);
    assert_eq!(a.elems, vec![11, 22, 33]);
    assert_eq!(a.shape, vec![3]);
}

#[test]
fn add_in_place_wraps_around() {
    let mut a = Tensor::new(0, ElementKind::Int64, vec![1], vec![i64::MAX]);
    let b = Tensor::new(0, ElementKind::Int64, vec![1], vec![1]);
    a.add_in_place(&b);
    assert_eq!(a.elems, vec![i64::MIN]);
}

#[test]
fn element_reads_by_flat_index() {
    let t = Tensor::new(0, ElementKind::Float32, vec![2], vec![9, 11]);
    assert_eq!(t.element(0), Ok(9));
    assert_eq!(t.element(1), Ok(11));
    assert_eq!(t.element(2), Err(Fatal::OutOfBounds));
}

#[test]
fn same_shape_compares_dimensions() {
    let a = Tensor::new(0, ElementKind::Float32, vec![2, 3], vec![0; 6]);
    let b = Tensor::new(0, ElementKind::Int64, vec![2, 3], vec![1; 6]);
    let c = Tensor::new(0, ElementKind::Float32, vec![3, 2], vec![0; 6]);
    assert!(a.same_shape(&b));
    assert!(!a.same_shape(&c));
}

#[test]
fn validate_accepts_consistent_tensors() {
    let t = Tensor::new(0, ElementKind::Float32, vec![2, 3], vec![0; 6]);
    assert!(t.validate());
    let scalar = Tensor::new(0, ElementKind::Float32, vec![], vec![42]);
    assert!(scalar.validate());
}

#[test]
fn validate_rejects_mismatched_count() {
    let t = Tensor::new(0, ElementKind::Float32, vec![2, 3], vec![0; 5]);
    assert!(!t.validate());
}

#[test]
fn validate_handles_zero_dimension() {
    let empty = Tensor::new(0, ElementKind::Int64, vec![4, 0], vec![]);
    assert!(empty.validate());
    let not_empty = Tensor::new(0, ElementKind::Int64, vec![4, 0], vec![1]);
    assert!(!not_empty.validate());
}

#[test]
fn validate_handles_overflowing_product() {
    let t = Tensor::new(0, ElementKind::Int64, vec![usize::MAX, 2], vec![0; 4]);
    assert!(!t.validate());
}
