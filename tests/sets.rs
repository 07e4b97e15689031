use numbered::set::{scan_index_of, scan_len};
use numbered::{IdNum, IndexInt, IndexedSet, IntRange, IntRangeIter, Range, Singleton};

fn drain<T: IndexInt>(mut it: IntRangeIter<T>) -> Vec<T> {
    let mut out = Vec::new();
    while let Some(x) = it.next() {
        out.push(x);
    }
    out
}

fn check_first<N: IndexedSet>(numbered: &N, x: N::Element) {
    assert_eq!(numbered.index_of(x), Some(0));
}

#[test]
fn int_range_test() {
    let range = IntRange::new(10);
    assert_eq!(range.index_of(-1), None);
    assert_eq!(range.index_of(0), Some(0));
    assert_eq!(range.index_of(3), Some(3));
    assert_eq!(range.index_of(9), Some(9));
    assert_eq!(range.index_of(10), None);
    assert_eq!(drain(range.iter()), (0..10).collect::<Vec<_>>());
    assert_eq!(range.len(), 10);
}

#[test]
fn range_test() {
    let range = Range::new(10);
    assert_eq!(range.index_of(-1), None);
    assert_eq!(range.index_of(0), Some(0));
    assert_eq!(range.index_of(3), Some(3));
    assert_eq!(range.index_of(9), Some(9));
    assert_eq!(range.index_of(10), None);
    assert_eq!(drain(range.iter()), (0..10).collect::<Vec<_>>());
    assert_eq!(range.len(), 10);
}

#[test]
fn id_num_test() {
    let num = IdNum::new(10);
    assert_eq!(num.index_of(-1), None);
    assert_eq!(num.index_of(0), Some(0));
    assert_eq!(num.index_of(3), Some(3));
    assert_eq!(num.index_of(9), Some(9));
    assert_eq!(num.index_of(10), None);
    assert_eq!(drain(num.iter()), (0..10).collect::<Vec<_>>());
    assert_eq!(num.len(), 10);
}

#[test]
fn int_range_index_and_membership() {
    let range = IntRange::new(4u8);
    assert_eq!(range.index(0), Some(0));
    assert_eq!(range.index(3), Some(3));
    assert_eq!(range.index(4), None);
    assert_eq!(range.index(300), None);
    assert!(range.contains(2));
    assert!(!range.contains(4));
    assert!(!range.is_empty());
    assert!(IntRange::new(0i64).is_empty());
    assert_eq!(range.to_vec(), vec![0u8, 1, 2, 3]);
}

#[test]
fn set_slice_ref() {
    let set: &[i32] = &[2, 3, 5, 7, 11];
    assert_eq!(set.index(0), Some(&2));
}

#[test]
fn set_vec_ref() {
    let set = &vec![2, 3, 5, 7, 11];
    assert_eq!(set.index(0), Some(&2));
}

#[test]
fn set_option() {
    let set = Some('a');
    assert_eq!(set.index(0), Some('a'));
}

#[test]
fn set_option_ref() {
    let set = &Some('a');
    assert_eq!((&set).index(0), Some(&'a'));
}

#[test]
fn numbered_array() {
    let vec: &[i32] = &[2, 3, 5, 7, 11];
    assert_eq!(vec.index(0), Some(&2));
}

#[test]
fn numbered_vec_ref() {
    let vec = &vec![2, 3, 5, 7, 11];
    assert_eq!(vec.index(0), Some(&2));
}

#[test]
fn containers_as_sets() {
    let set: &[i32] = &[2, 3, 5, 7, 11];
    assert_eq!(set.len(), 5);
    assert_eq!(set.index(5), None);
    assert_eq!(set.index_of(&7), Some(3));
    assert_eq!(set.index_of(&4), None);
    let v = vec![10u64, 20, 30];
    let set = &v;
    assert_eq!(set.index_of(&30), Some(2));
    assert_eq!(set.index_of(&31), None);
    let none: Option<char> = None;
    assert_eq!(none.len(), 0);
    assert_eq!(none.index(0), None);
    assert_eq!(none.index_of('a'), None);
    assert_eq!(Some('a').index_of('a'), Some(0));
    assert_eq!(Some('a').index_of('b'), None);
    assert_eq!(Some('a').index(1), None);
}

#[test]
fn singleton() {
    let singleton = Singleton::new('a');
    assert_eq!(singleton.index_of('a'), Some(0));
    assert_eq!(singleton.index_of('b'), None);
    assert_eq!(singleton.index(0), Some('a'));
    assert_eq!(singleton.index(1), None);
    assert_eq!(singleton.to_vec(), vec!['a']);
    assert_eq!(singleton.len(), 1);
    assert_eq!(singleton.contains('a'), true);
}

#[test]
fn singleton_test() {
    let singleton = Singleton::new('a');
    assert_eq!(singleton.index_of('a'), Some(0));
    assert_eq!(singleton.index_of('b'), None);
    assert_eq!(singleton.index(0), Some('a'));
    assert_eq!(singleton.index(1), None);
    assert_eq!(singleton.to_vec(), vec!['a']);
    assert_eq!(singleton.len(), 1);
    assert_eq!(singleton.contains('a'), true);
}

#[test]
fn singleton_ref() {
    let singleton = Singleton::new(1usize);
    check_first(&singleton, 1usize);

    let singleton_ref = &singleton;
    check_first(&singleton_ref, &1usize);
}

#[test]
fn unit_num_test() {
    let num = Singleton::new(());
    assert_eq!(num.index_of(()), Some(0));
    assert_eq!(num.to_vec(), vec![()]);
    assert_eq!(num.len(), 1);
    assert_eq!(num.contains(()), true);
}

#[test]
fn overrides_match_scans() {
    let range = IntRange::new(6i32);
    for x in -2..8 {
        assert_eq!(range.index_of(x), scan_index_of(&range, &x));
    }
    assert_eq!(range.len(), scan_len(&range));

    let singleton = Singleton::new('q');
    for c in ['p', 'q', 'r'] {
        assert_eq!(singleton.index_of(c), scan_index_of(&singleton, &c));
    }
    assert_eq!(singleton.len(), scan_len(&singleton));

    let items = vec![4u16, 8, 15, 16, 23, 42];
    let set = &items;
    for x in [4u16, 15, 42, 5] {
        assert_eq!(set.index_of(&x), scan_index_of(&set, &&x));
    }
    assert_eq!(set.len(), scan_len(&set));
}
