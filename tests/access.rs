use bevy_javelin::access::{others, parent_other_than};

#[test]
fn others_skips_self_and_keeps_order() {
    assert_eq!(others(3, &vec![1, 3, 2, 3, 5]), vec![1, 2, 5]);
    assert_eq!(others(3, &vec![3, 3]), Vec::<u64>::new());
    assert_eq!(others(3, &vec![]), Vec::<u64>::new());
}

#[test]
fn parent_prefers_local_and_never_self() {
    assert_eq!(parent_other_than(1, Some(2), Some(3)), Some(2));
    assert_eq!(parent_other_than(1, None, Some(3)), Some(3));
    assert_eq!(parent_other_than(1, None, None), None);
    assert_eq!(parent_other_than(1, Some(1), Some(3)), None);
    assert_eq!(parent_other_than(3, None, Some(3)), None);
}
