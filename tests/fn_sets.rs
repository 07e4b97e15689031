use numbered::fn_set::FnSet;
use numbered::{IndexedSet, MapNum, MapSet, MappedSetIter};

fn drain<D, B: Fn(usize) -> Option<D>>(mut it: MappedSetIter<B>) -> Vec<D> {
    let mut out = Vec::new();
    while let Some(x) = it.next() {
        out.push(x);
    }
    out
}

#[test]
fn fn_set_unit() {
    let forward = |i: usize| Some(i).filter(|&i| i == 0).and(Some(()));
    let reverse = |()| Some(0);
    let set = FnSet::new(forward, reverse);
    assert_eq!(set.len(), 1);
    assert_eq!(set.index_of(()), Some(0));
    assert_eq!(drain(set.iter()), vec![()]);
}

#[test]
fn fn_set_ref_str() {
    let domain = vec!["zero", "one", "two", "three"];
    let forward = |i: usize| domain.get(i).cloned();
    let reverse = |s: &str| domain.iter().position(|t| *t == s);

    let set = FnSet::new(forward, reverse);
    assert_eq!(set.len(), 4);
    assert_eq!(set.index_of("two"), Some(2));
    assert_eq!(set.index_of("four"), None);
    assert_eq!(drain(set.iter()), domain);
}

#[test]
fn fn_set_ref_string() {
    let domain: Vec<_> = vec!["zero", "one", "two", "three"]
        .iter()
        .map(|s| s.to_string())
        .collect();
    let forward = |i: usize| domain.get(i);
    let reverse = |s: &String| domain.iter().position(|t| t == s);

    let set = FnSet::new(forward, reverse);
    assert_eq!(set.len(), 4);
    assert_eq!(set.index_of(&domain[1]), Some(1));

    let four = "four".to_string();
    assert_eq!(set.index_of(&four), None);

    assert_eq!(drain(set.iter()), domain.iter().collect::<Vec<_>>());
}

#[test]
fn map_set_unit() {
    let forward = |i: usize| Some(i).filter(|&i| i == 0).and(Some(()));
    let reverse = |()| Some(0);
    let set = MapSet::new(forward, reverse);
    assert_eq!(set.len(), 1);
    assert_eq!(set.index_of(()), Some(0));
    assert_eq!(drain(set.iter()), vec![()]);
}

#[test]
fn map_set_ref_str() {
    let domain = vec!["zero", "one", "two", "three"];
    let forward = |i: usize| domain.get(i).cloned();
    let reverse = |s: &str| domain.iter().position(|t| *t == s);

    let set = MapSet::new(forward, reverse);
    assert_eq!(set.len(), 4);
    assert_eq!(set.index_of("two"), Some(2));
    assert_eq!(set.index_of("four"), None);
    assert_eq!(drain(set.iter()), domain);
}

#[test]
fn map_set_ref_string() {
    let domain: Vec<_> = vec!["zero", "one", "two", "three"]
        .iter()
        .map(|s| s.to_string())
        .collect();
    let forward = |i: usize| domain.get(i);
    let reverse = |s: &String| domain.iter().position(|t| t == s);

    let set = MapSet::new(forward, reverse);
    assert_eq!(set.len(), 4);
    assert_eq!(set.index_of(&domain[1]), Some(1));

    let four = "four".to_string();
    assert_eq!(set.index_of(&four), None);

    assert_eq!(drain(set.iter()), domain.iter().collect::<Vec<_>>());
}

#[test]
fn map_set_string() {
    let domain: Vec<_> = vec!["zero", "one", "two", "three"]
        .iter()
        .map(|s| s.to_string())
        .collect();
    let forward = |i: usize| domain.get(i).map(|s| (*s).clone());
    let reverse = |s: String| domain.iter().position(|t| *t == s);

    let set = MapSet::new(forward, reverse);
    assert_eq!(set.len(), 4);
    assert_eq!(set.index_of(domain[1].clone()), Some(1));
    assert_eq!(set.index_of("four".to_string()), None);
    assert_eq!(drain(set.iter()), domain);
}

#[test]
fn map_num_unit() {
    let forward = |()| Some(0);
    let backward = |i: usize| Some(i).filter(|&i| i == 0).and(Some(()));
    let num = MapNum::new(forward, backward);
    assert_eq!(num.len(), 1);
    assert_eq!(num.index_of(()), Some(0));
    assert_eq!(drain(num.iter()), vec![()]);
}

#[test]
fn map_num_ref_str() {
    let domain = vec!["zero", "one", "two", "three"];
    let forward = |s: &str| domain.iter().position(|&t| t == s);
    let backward = |i: usize| domain.get(i).cloned();

    let num = MapNum::new(forward, backward);
    assert_eq!(num.len(), 4);
    assert_eq!(num.index_of("two"), Some(2));
    assert_eq!(num.index_of("four"), None);
    assert_eq!(drain(num.iter()), domain);
}

#[test]
fn map_num_ref_string() {
    let domain: Vec<_> = vec!["zero", "one", "two", "three"]
        .iter()
        .map(|s| s.to_string())
        .collect();
    let forward = |s: &String| domain.iter().position(|t| t == s);
    let backward = |i: usize| domain.get(i);

    let num = MapNum::new(forward, backward);
    assert_eq!(num.len(), 4);
    assert_eq!(num.index_of(&domain[1]), Some(1));

    let four = "four".to_string();
    assert_eq!(num.index_of(&four), None);

    assert_eq!(drain(num.iter()), domain.iter().collect::<Vec<_>>());
}

#[test]
fn map_num_string() {
    let domain: Vec<_> = vec!["zero", "one", "two", "three"]
        .iter()
        .map(|s| s.to_string())
        .collect();
    let forward = |s: String| domain.iter().position(|t| *t == s);
    let backward = |i: usize| domain.get(i).map(|s| (*s).clone());

    let num = MapNum::new(forward, backward);
    assert_eq!(num.len(), 4);
    assert_eq!(num.index_of(domain[1].clone()), Some(1));
    assert_eq!(num.index_of("four".to_string()), None);
    assert_eq!(drain(num.iter()), domain);
}

#[test]
fn fn_set_with_len_and_inverse_law() {
    let forward = |i: usize| if i < 6 { Some((i / 3, i % 3)) } else { None };
    let reverse = |(a, b): (usize, usize)| if a < 2 && b < 3 { Some(a * 3 + b) } else { None };
    let set = FnSet::with_len(6, forward, reverse);
    assert_eq!(set.len(), 6);
    for i in 0..6 {
        let x = set.index(i).unwrap();
        assert_eq!(set.index_of(x), Some(i));
        assert_eq!(reverse(forward(i).unwrap()), Some(i));
    }
    assert_eq!(set.index(6), None);
    assert_eq!(set.index_of((2, 0)), None);
    assert!(set.contains((1, 2)));
    assert!(!set.contains((0, 3)));
    assert_eq!(set.to_vec(), vec![(0, 0), (0, 1), (0, 2), (1, 0), (1, 1), (1, 2)]);
    assert_eq!(drain(set.into_iter()).len(), 6);
}

#[test]
fn empty_fn_set() {
    let forward = |_: usize| -> Option<u8> { None };
    let reverse = |_: u8| -> Option<usize> { None };
    let set = FnSet::new(forward, reverse);
    assert_eq!(set.len(), 0);
    assert!(set.is_empty());
    assert_eq!(set.index(0), None);
    assert_eq!(set.index_of(7), None);
}

#[test]
fn map_num_with_len() {
    let forward = |c: char| if ('a'..='c').contains(&c) { Some(c as usize - 'a' as usize) } else { None };
    let backward = |i: usize| if i < 3 { Some((b'a' + i as u8) as char) } else { None };
    let num = MapNum::with_len(3, forward, backward);
    assert_eq!(num.len(), 3);
    assert_eq!(num.index(1), Some('b'));
    assert_eq!(num.index_of('c'), Some(2));
    assert_eq!(num.index_of('d'), None);
}

#[test]
fn mapped_set_iter_grid_2d() {
    let backward = |i| Some(i).filter(|&i| i < 9).map(|i| (i / 3, i % 3));
    let mut iter = MappedSetIter::new(9, backward);
    assert_eq!(iter.next(), Some((0, 0)));
    assert_eq!(iter.next(), Some((0, 1)));
    assert_eq!(iter.len(), 7);
    assert_eq!(iter.next(), Some((0, 2)));
    assert_eq!(iter.next(), Some((1, 0)));
    assert_eq!(iter.nth(2), Some((2, 0)));
    assert_eq!(iter.next_back(), Some((2, 2)));
    assert_eq!(iter.last(), Some((2, 1)));
}

#[test]
fn mapped_set_iter_range() {
    let backward = |i| Some(i).filter(|&i| i < 100);
    let mut iter = MappedSetIter::new(100, backward);
    let mut range = numbered::IntRangeIter::new(0, 100);
    assert_eq!(iter.next(), range.next());
    assert_eq!(iter.len(), range.len());
    assert_eq!(iter.nth(97), range.nth(97));
    assert_eq!(iter.next_back(), range.next_back());
    assert_eq!(iter.len(), range.len());
    assert_eq!(iter.next(), range.next());
    assert_eq!(iter.next(), range.next());
}

#[test]
fn map_num_iter_grid_2d() {
    let backward = |i| Some(i).filter(|&i| i < 9).map(|i| (i / 3, i % 3));
    let mut iter = numbered::MapNumIter::new(9, backward);
    assert_eq!(iter.next(), Some((0, 0)));
    assert_eq!(iter.next(), Some((0, 1)));
    assert_eq!(iter.len(), 7);
    assert_eq!(iter.next(), Some((0, 2)));
    assert_eq!(iter.next(), Some((1, 0)));
    assert_eq!(iter.nth(2), Some((2, 0)));
    assert_eq!(iter.next_back(), Some((2, 2)));
    assert_eq!(iter.last(), Some((2, 1)));
}

#[test]
fn map_num_iter_range() {
    let backward = |i| Some(i).filter(|&i| i < 100);
    let mut iter = numbered::MapNumIter::new(100, backward);
    let mut range = numbered::RangeIter::new(0, 100);
    assert_eq!(iter.next(), range.next());
    assert_eq!(iter.len(), range.len());
    assert_eq!(iter.nth(97), range.nth(97));
    assert_eq!(iter.next_back(), range.next_back());
    assert_eq!(iter.len(), range.len());
    assert_eq!(iter.next(), range.next());
    assert_eq!(iter.next(), range.next());
}

#[test]
fn mapped_iter_nth_back_and_size_hint() {
    let backward = |i: usize| if i < 5 { Some(i * 10) } else { None };
    let mut iter = MappedSetIter::new(5, backward);
    assert_eq!(iter.size_hint(), (5, Some(5)));
    assert_eq!(iter.nth_back(1), Some(30));
    assert_eq!(iter.nth_back(5), None);
    assert_eq!(iter.len(), 0);
    assert_eq!(iter.next(), None);
}
