use kube_derive::apply::apply_list;
use kube_derive::schema::ListType;

#[test]
fn set_list_takes_the_union() {
    assert_eq!(apply_list(Some(ListType::ValueSet), &vec![2], &vec![3]), vec![2, 3]);
    assert_eq!(apply_list(Some(ListType::ValueSet), &vec![2], &vec![2, 3, 3]), vec![2, 3]);
}

#[test]
fn atomic_list_is_replaced() {
    assert_eq!(apply_list(Some(ListType::Atomic), &vec![2], &vec![3]), vec![3]);
    assert_eq!(apply_list(None, &vec![2], &vec![3]), vec![3]);
    assert_eq!(apply_list(None, &vec![2], &vec![]), Vec::<i64>::new());
}
