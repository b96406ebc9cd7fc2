use deet::warmup::{add_n, add_n_inplace, dedup};

#[test]
fn test_add_n() {
    assert_eq!(add_n(vec![1], 2), vec![3]);
}

#[test]
fn test_add_n_inplace() {
    let mut v = vec![1];
    add_n_inplace(&mut v, 2);
    assert_eq!(v, vec![3]);
}

#[test]
fn test_dedup() {
    let mut v = vec![3, 1, 0, 1, 4, 4];
    dedup(&mut v);
    assert_eq!(v, vec![3, 1, 0, 4]);
}

#[test]
fn test_add_n_keeps_input_length() {
    let v = vec![10, -3, 0, 7];
    let r = add_n(v, -5);
    assert_eq!(r, vec![5, -8, -5, 2]);
}

#[test]
fn test_dedup_empty_and_no_dups() {
    let mut v: Vec<i32> = vec![];
    dedup(&mut v);
    assert_eq!(v, Vec::<i32>::new());
    let mut w = vec![5, 6, 7];
    dedup(&mut w);
    assert_eq!(w, vec![5, 6, 7]);
}
