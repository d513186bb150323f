use growvec::OutOfRange;
use growvec::PlainVec;
use growvec::Vector;

#[test]
fn new_container_is_empty() {
    let c: PlainVec<u32> = PlainVec::new();
    assert_eq!(c.len(), 0);
    assert!(c.is_empty());
    assert_eq!(c.to_vec(), Vec::<u32>::new());
}

#[test]
fn push_grows_length_by_one_and_appends() {
    let mut c: PlainVec<u32> = PlainVec::new();
    let before = c.len();
    c.push(42);
    assert_eq!(c.len(), before + 1);
    assert_eq!(c.get(c.len() - 1), Ok(42));
    let before = c.len();
    c.push(7);
    assert_eq!(c.len(), before + 1);
    assert_eq!(c.get(c.len() - 1), Ok(7));
    assert_eq!(c.get(0), Ok(42));
}

#[test]
fn capacity_covers_length_after_every_call() {
    let mut c: PlainVec<i64> = PlainVec::new();
    assert!(c.capacity() >= c.len());
    c.push(1);
    assert!(c.capacity() >= c.len());
    c.push(2);
    assert!(c.capacity() >= c.len());
    c.insert(0, 3).unwrap();
    assert!(c.capacity() >= c.len());
    c.reserve(10);
    assert!(c.capacity() >= c.len());
    c.remove(1).unwrap();
    assert!(c.capacity() >= c.len());
    c.set(0, 9).unwrap();
    assert!(c.capacity() >= c.len());
    c.swap(0, 1).unwrap();
    assert!(c.capacity() >= c.len());
    c.shrink_to_fit();
    assert!(c.capacity() >= c.len());
    c.clear();
    assert!(c.capacity() >= c.len());
}

#[test]
fn reserve_and_with_capacity_set_aside_room() {
    let mut c: PlainVec<u8> = PlainVec::new();
    c.reserve(10);
    assert!(c.capacity() >= 10);
    assert_eq!(c.len(), 0);
    let d: PlainVec<u8> = PlainVec::with_capacity(25);
    assert!(d.capacity() >= 25);
    assert_eq!(d.len(), 0);
    assert!(d.is_empty());
}

#[test]
fn reserve_never_shrinks_and_keeps_elements() {
    let mut c: PlainVec<u16> = PlainVec::with_capacity(8);
    c.push(5);
    c.push(6);
    let cap_before = c.capacity();
    c.reserve(1);
    assert!(c.capacity() >= cap_before);
    assert_eq!(c.to_vec(), vec![5, 6]);
}

#[test]
fn shrink_to_fit_reduces_capacity_toward_length() {
    let mut c: PlainVec<u32> = PlainVec::with_capacity(100);
    c.push(1);
    c.push(2);
    c.push(3);
    let cap_before = c.capacity();
    c.shrink_to_fit();
    assert!(c.capacity() <= cap_before);
    assert!(c.capacity() >= c.len());
    assert_eq!(c.to_vec(), vec![1, 2, 3]);
}

#[test]
fn clear_removes_all_elements() {
    let mut c: PlainVec<u32> = PlainVec::new();
    c.push(1);
    c.push(2);
    c.clear();
    assert_eq!(c.len(), 0);
    assert!(c.is_empty());
    assert!(c.get(0).is_err());
}

#[test]
fn insert_then_remove_restores_container() {
    let mut c: PlainVec<u32> = PlainVec::new();
    c.push(10);
    c.push(20);
    c.push(30);
    let before = c.to_vec();
    let len_before = c.len();
    let at_index = c.get(1).unwrap();
    c.insert(1, 99).unwrap();
    assert_eq!(c.len(), len_before + 1);
    c.remove(1).unwrap();
    assert_eq!(c.len(), len_before);
    assert_eq!(c.get(1), Ok(at_index));
    assert_eq!(c.to_vec(), before);
}

#[test]
fn insert_at_length_appends() {
    let mut c: PlainVec<u32> = PlainVec::new();
    c.push(1);
    c.insert(1, 2).unwrap();
    assert_eq!(c.to_vec(), vec![1, 2]);
}

#[test]
fn insert_past_length_fails_with_out_of_range() {
    let mut c: PlainVec<u32> = PlainVec::new();
    c.push(1);
    let e = c.insert(3, 9);
    assert_eq!(e, Err(OutOfRange { index: 3, bound: 2 }));
    assert_eq!(c.to_vec(), vec![1]);
}

#[test]
fn remove_past_length_fails_with_out_of_range() {
    let mut c: PlainVec<u32> = PlainVec::new();
    c.push(1);
    let e = c.remove(1);
    assert_eq!(e, Err(OutOfRange { index: 1, bound: 1 }));
    assert_eq!(c.to_vec(), vec![1]);
}

#[test]
fn get_boundaries() {
    let mut c: PlainVec<u32> = PlainVec::new();
    c.push(4);
    c.push(5);
    // at the length: always out of range
    assert_eq!(c.get(c.len()), Err(OutOfRange { index: 2, bound: 2 }));
    // just below the length: always succeeds on a non-empty container
    assert_eq!(c.get(c.len() - 1), Ok(5));
}

#[test]
fn set_overwrites_in_place() {
    let mut c: PlainVec<u32> = PlainVec::new();
    c.push(1);
    c.push(2);
    c.set(0, 8).unwrap();
    assert_eq!(c.to_vec(), vec![8, 2]);
    assert_eq!(c.len(), 2);
    let e = c.set(2, 9);
    assert_eq!(e, Err(OutOfRange { index: 2, bound: 2 }));
    assert_eq!(c.to_vec(), vec![8, 2]);
}

#[test]
fn unchecked_accessors_work_on_valid_indices() {
    let mut c: PlainVec<u32> = PlainVec::new();
    c.push(1);
    c.push(2);
    assert_eq!(c.get_unchecked(1), 2);
    c.set_unchecked(0, 7);
    assert_eq!(c.to_vec(), vec![7, 2]);
}

#[test]
fn swap_exchanges_elements() {
    let mut c: PlainVec<u32> = PlainVec::new();
    c.push(1);
    c.push(2);
    c.push(3);
    c.swap(0, 2).unwrap();
    assert_eq!(c.to_vec(), vec![3, 2, 1]);
    c.swap(1, 1).unwrap();
    assert_eq!(c.to_vec(), vec![3, 2, 1]);
    assert_eq!(c.swap(0, 3), Err(OutOfRange { index: 3, bound: 3 }));
    assert_eq!(c.swap(4, 0), Err(OutOfRange { index: 4, bound: 3 }));
    assert_eq!(c.to_vec(), vec![3, 2, 1]);
}

#[test]
fn from_iter_preserves_order() {
    let source = vec![3u32, 1, 4, 1, 5, 9, 2, 6];
    let c = PlainVec::from_iter(source.clone());
    assert_eq!(c.to_vec(), source);
    assert_eq!(c.len(), 8);
    assert!(c.capacity() >= 8);
}

#[test]
fn from_iter_of_empty_source_is_empty() {
    let c = PlainVec::<u32>::from_iter(Vec::new());
    assert!(c.is_empty());
    assert_eq!(c.to_vec(), Vec::<u32>::new());
}

#[test]
fn index_check_accepts_below_bound_and_rejects_at_it() {
    assert_eq!(growvec::index_check(0, 1), Ok(()));
    assert_eq!(growvec::index_check(4, 5), Ok(()));
    assert_eq!(growvec::index_check(5, 5), Err(OutOfRange { index: 5, bound: 5 }));
    assert_eq!(growvec::index_check(9, 5), Err(OutOfRange { index: 9, bound: 5 }));
    assert_eq!(growvec::index_check(0, 0), Err(OutOfRange { index: 0, bound: 0 }));
}

#[test]
fn out_of_range_message_names_index_and_bound() {
    let mut c: PlainVec<u32> = PlainVec::new();
    c.push(1);
    c.push(2);
    c.push(3);
    let e = c.get(5).unwrap_err();
    assert_eq!(e.message(), "Index: 5 out of bounds: 0..3");
    let e = growvec::index_check(12345, 670).unwrap_err();
    assert_eq!(e.message(), "Index: 12345 out of bounds: 0..670");
    let e = growvec::index_check(0, 0).unwrap_err();
    assert_eq!(e.message(), "Index: 0 out of bounds: 0..0");
    let e = c.insert(10, 4).unwrap_err();
    assert_eq!(e.message(), "Index: 10 out of bounds: 0..4");
}

#[test]
fn scenario_push_insert_remove_swap() {
    let mut c: PlainVec<u32> = PlainVec::new();
    assert!(c.is_empty());
    c.push(10);
    c.push(20);
    c.push(30);
    assert_eq!(c.len(), 3);
    c.insert(1, 99).unwrap();
    assert_eq!(c.to_vec(), vec![10, 99, 20, 30]);
    assert_eq!(c.len(), 4);
    c.remove(0).unwrap();
    assert_eq!(c.to_vec(), vec![99, 20, 30]);
    assert_eq!(c.len(), 3);
    let e = c.get(5);
    assert_eq!(e, Err(OutOfRange { index: 5, bound: 3 }));
    c.swap(0, 2).unwrap();
    assert_eq!(c.to_vec(), vec![30, 20, 99]);
}
