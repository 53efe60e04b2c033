use emarfcore::handle::{HandleError, HandleTable, NULL_HANDLE};
use emarfcore::my_add;

#[test]
fn fresh_handles_count_up_from_one() {
    let mut t = HandleTable::new();
    assert_eq!(t.issued_count(), 0);
    assert_eq!(t.construct("a".to_string()), 1);
    assert_eq!(t.construct("b".to_string()), 2);
    assert_eq!(t.issued_count(), 2);
}

#[test]
fn get_and_contains_follow_liveness() {
    let mut t = HandleTable::new();
    let h = t.construct(vec![1u8, 2, 3]);
    assert!(t.contains(h));
    assert_eq!(t.get(h), Some(&vec![1u8, 2, 3]));
    assert!(!t.contains(NULL_HANDLE));
    assert_eq!(t.get(NULL_HANDLE), None);
    assert_eq!(t.get(h + 1), None);
    assert_eq!(t.destroy(h), Ok(()));
    assert!(!t.contains(h));
    assert_eq!(t.get(h), None);
}

#[test]
fn released_handle_is_never_reissued() {
    let mut t = HandleTable::new();
    let a = t.construct(10u32);
    t.destroy(a).unwrap();
    let b = t.construct(20u32);
    assert_ne!(a, b);
    assert_eq!(t.get(a), None);
    assert_eq!(t.get(b), Some(&20));
    assert_eq!(t.destroy(a), Err(HandleError::Released));
}

#[test]
fn null_release_changes_nothing() {
    let mut t = HandleTable::new();
    let a = t.construct(1i64);
    assert_eq!(t.destroy(NULL_HANDLE), Ok(()));
    assert_eq!(t.destroy(NULL_HANDLE), Ok(()));
    assert_eq!(t.get(a), Some(&1));
}

#[test]
fn my_add_sums() {
    assert_eq!(my_add(2, 3), 5);
    assert_eq!(my_add(-7, 4), -3);
    assert_eq!(my_add(i32::MAX, 0), i32::MAX);
}
