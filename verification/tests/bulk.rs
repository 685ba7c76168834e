use copy_arrayvec::CopyArrayVec;

#[test]
fn from_slice_of_exactly_max() {
    let arr = CopyArrayVec::<i32, 4>::from_slice(&[9, 8, 7, 6]);
    assert!(arr.is_full());
    assert_eq!(arr.len(), 4);
    assert_eq!(&arr[..], &[9, 8, 7, 6]);
}

#[test]
fn from_slice_of_fewer() {
    let arr = CopyArrayVec::<i32, 4>::from_slice(&[9, 8]);
    assert_eq!(&arr[..], &[9, 8]);
    assert_eq!(arr.capacity_remaining(), 2);
    let none = CopyArrayVec::<i32, 4>::from_slice(&[]);
    assert!(none.is_empty());
}

#[test]
fn extend_appends_in_order() {
    let mut arr = CopyArrayVec::<i32, 6>::from_slice(&[1, 2]);
    arr.extend_from_slice(&[3, 4, 5]);
    assert_eq!(&arr[..], &[1, 2, 3, 4, 5]);
    arr.extend_from_slice(&[]);
    assert_eq!(&arr[..], &[1, 2, 3, 4, 5]);
    arr.extend_from_slice(&[6]);
    assert!(arr.is_full());
    assert_eq!(&arr[..], &[1, 2, 3, 4, 5, 6]);
}
