use duck::{Error, Region, Vec};

fn fresh(count: usize) -> (Region<u32>, Vec<u32>) {
    let mut region: Region<u32> = Region::new(count, 0);
    let v = region.acquire().expect("a new region is free");
    (region, v)
}

#[test]
fn push_then_pop_in_reverse() {
    let (mut region, mut v) = fresh(4);
    assert_eq!(v.capacity(), 4);
    assert!(v.is_empty());
    v.push(123);
    v.push(456);
    v.push(789);
    assert_eq!(v.len(), 3);
    assert_eq!(v.pop(), Some(789));
    assert_eq!(v.pop(), Some(456));
    assert_eq!(v.pop(), Some(123));
    assert_eq!(v.pop(), None);
    assert_eq!(v.len(), 0);
    region.release(v);
}

#[test]
fn push_to_capacity_then_pop_all() {
    for n in 0..=5usize {
        let (_region, mut v) = fresh(5);
        for k in 0..n {
            v.push(k as u32 * 10);
        }
        let mut out: std::vec::Vec<u32> = std::vec::Vec::new();
        for _ in 0..n {
            out.push(v.pop().unwrap());
        }
        let expected: std::vec::Vec<u32> = (0..n).rev().map(|k| k as u32 * 10).collect();
        assert_eq!(out, expected);
        assert_eq!(v.len(), 0);
        assert!(v.is_empty());
    }
}

#[test]
fn second_acquire_is_locked_until_release() {
    let mut region: Region<u32> = Region::new(4, 0);
    let first = region.acquire().expect("a new region is free");
    assert!(matches!(region.acquire(), Err(Error::Locked)));
    assert!(matches!(region.acquire(), Err(Error::Locked)));
    region.release(first);
    let again = region.acquire();
    assert!(again.is_ok());
}

#[test]
fn acquire_starts_empty_and_keeps_stale_storage() {
    let mut region: Region<u32> = Region::new(3, 7);
    let mut v = region.acquire().unwrap();
    assert_eq!(v.as_ptr(), &[7, 7, 7]);
    v.push(1);
    v.push(2);
    region.release(v);
    let v = region.acquire().unwrap();
    assert_eq!(v.len(), 0);
    assert_eq!(v.as_slice(), &[] as &[u32]);
    assert_eq!(v.as_ptr(), &[1, 2, 7]);
}

#[test]
fn insert_at_front_shifts_everything() {
    let (_region, mut v) = fresh(5);
    v.push(1);
    v.push(2);
    v.push(3);
    v.insert(0, 9);
    assert_eq!(v.len(), 4);
    assert_eq!(v.as_slice(), &[9, 1, 2, 3]);
    assert_eq!(*v.index(0), 9);
}

#[test]
fn insert_in_the_middle_and_at_the_end() {
    let (_region, mut v) = fresh(5);
    v.push(1);
    v.push(3);
    v.insert(1, 2);
    assert_eq!(v.as_slice(), &[1, 2, 3]);
    v.insert(3, 4);
    assert_eq!(v.as_slice(), &[1, 2, 3, 4]);
}

#[test]
fn insert_past_len_writes_in_place_and_grows_by_one() {
    let mut region: Region<u32> = Region::new(4, 0);
    let mut v = region.acquire().unwrap();
    v.push(10);
    v.push(20);
    v.push(30);
    v.clear();
    v.push(1);
    v.insert(3, 5);
    assert_eq!(v.len(), 2);
    assert_eq!(v.as_slice(), &[1, 20]);
    assert_eq!(v.as_ptr(), &[1, 20, 30, 5]);
}

#[test]
fn remove_closes_the_gap() {
    let (_region, mut v) = fresh(5);
    for x in [10u32, 20, 30, 40] {
        v.push(x);
    }
    assert_eq!(v.remove(1), 20);
    assert_eq!(v.len(), 3);
    assert_eq!(v.as_slice(), &[10, 30, 40]);
    assert_eq!(v.remove(2), 40);
    assert_eq!(v.as_slice(), &[10, 30]);
    assert_eq!(v.remove(0), 10);
    assert_eq!(v.as_slice(), &[30]);
}

#[test]
fn append_copies_and_leaves_other_unchanged() {
    let (_r1, mut a) = fresh(5);
    let (_r2, mut b) = fresh(3);
    a.push(1);
    a.push(2);
    b.push(3);
    b.push(4);
    b.push(5);
    a.append(&mut b);
    assert_eq!(a.len(), 5);
    assert_eq!(a.as_slice(), &[1, 2, 3, 4, 5]);
    assert_eq!(b.len(), 3);
    assert_eq!(b.as_slice(), &[3, 4, 5]);
}

#[test]
fn append_empty_other() {
    let (_r1, mut a) = fresh(2);
    let (_r2, mut b) = fresh(0);
    a.push(8);
    a.append(&mut b);
    assert_eq!(a.as_slice(), &[8]);
    assert_eq!(b.capacity(), 0);
}

#[test]
fn clear_keeps_capacity() {
    let (_region, mut v) = fresh(6);
    v.push(1);
    v.push(2);
    v.clear();
    assert_eq!(v.len(), 0);
    assert!(v.is_empty());
    assert_eq!(v.capacity(), 6);
    assert_eq!(v.as_ptr(), &[1, 2, 0, 0, 0, 0]);
}

#[test]
fn index_mut_writes_one_element() {
    let (_region, mut v) = fresh(3);
    v.push(1);
    v.push(2);
    *v.index_mut(1) = 42;
    assert_eq!(*v.index(1), 42);
    assert_eq!(v.as_slice(), &[1, 42]);
}

#[test]
fn mutable_slices_write_through() {
    let (_region, mut v) = fresh(4);
    v.push(1);
    v.push(2);
    v.as_mut_slice()[0] = 5;
    assert_eq!(v.as_mut_slice().len(), 2);
    for x in v.iter_mut() {
        *x += 1;
    }
    assert_eq!(v.as_slice(), &[6, 3]);
    v.as_mut_ptr()[3] = 9;
    assert_eq!(v.len(), 2);
    assert_eq!(v.as_ptr(), &[6, 3, 0, 9]);
}

#[test]
fn iter_walks_the_logical_elements() {
    let (_region, mut v) = fresh(4);
    v.push(4);
    v.push(5);
    v.push(6);
    v.pop();
    let seen: std::vec::Vec<u32> = v.iter().copied().collect();
    assert_eq!(seen, vec![4, 5]);
    let again: std::vec::Vec<u32> = v.iter().copied().collect();
    assert_eq!(again, vec![4, 5]);
}

#[test]
fn new_wraps_storage_as_empty() {
    let v: Vec<u8> = Vec::new(vec![3, 4, 5]);
    assert_eq!(v.len(), 0);
    assert_eq!(v.capacity(), 3);
    assert_eq!(v.as_ptr(), &[3, 4, 5]);
}
