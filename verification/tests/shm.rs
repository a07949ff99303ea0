use fastgen::shm::{ATTACH_FAILED, SHM};

#[test]
fn test_u8() {
    let mut one = SHM::<u8>::new(3, 1, 4096, 0);
    *one.deref_mut() = 1;
    assert_eq!(1, *one.deref());
}

#[test]
fn test_array() {
    let mut arr = SHM::<Vec<u8>>::new(3, 10, 4096, vec![7u8; 10]);
    arr.clear();
    let sl = arr.deref_mut();
    assert_eq!(0, sl[4]);
    sl[4] = 33;
    assert_eq!(33, sl[4]);
    assert_eq!(arr.deref().len(), 10);
}

#[test]
fn test_shm_fail() {
    let arr = SHM::<Vec<u8>>::from_id(88888888, 10, ATTACH_FAILED, Vec::new());
    assert!(arr.is_fail());

    let arr = SHM::<Vec<u8>>::new(5, 10, 8192, vec![0u8; 10]);
    assert!(!arr.is_fail());
    let arr2 = SHM::<Vec<u8>>::from_id(arr.get_id(), 10, 12288, vec![0u8; 10]);
    assert!(!arr2.is_fail());
}

#[test]
fn handle_keeps_what_it_was_made_with() {
    let mut cell = SHM::<u64>::new(-2, 8, -1, 0xdead_beef);
    assert_eq!(cell.get_id(), -2);
    assert_eq!(cell.get_ptr(), -1);
    assert!(cell.is_fail());
    assert_eq!(*cell.deref(), 0xdead_beef);
    cell.clear();
    assert_eq!(*cell.deref(), 0);
    assert_eq!((cell.id, cell.size, cell.ptr), (-2, 8, -1));
    let mut byte = SHM::<u8>::new(1, 1, 64, 9);
    byte.clear();
    assert_eq!(byte.value, 0);
    assert_eq!(byte.get_ptr(), 64);
}
