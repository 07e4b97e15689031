use numbered::{
    DiGraph, FnMap, FnSet, Graph, IndexedMap, IndexedSet, IntRange, IntRangeIter, ListGraph,
    OutEdges, VecMap,
};

fn degree_sum<G: OutEdges>(g: &G, vs: Vec<<G::Vertices as IndexedSet>::Element>) -> usize {
    vs.into_iter().map(|v| g.out_degree(v)).sum()
}

fn is_directed<G: DiGraph>(_: &G) -> bool {
    true
}

fn drain(mut it: IntRangeIter<usize>) -> Vec<usize> {
    let mut out = Vec::new();
    while let Some(x) = it.next() {
        out.push(x);
    }
    out
}

fn doubled(mut it: IntRangeIter<i32>) -> Vec<i32> {
    let mut out = Vec::new();
    while let Some(x) = it.next() {
        out.push(2 * x);
    }
    out
}

#[test]
fn map_array() {
    let map: &[i32] = &[2, 3, 5, 7, 11];
    assert_eq!(map.get(2), Some(&5));
    assert_eq!(map.get_index(10), None);
    assert_eq!(drain(map.domain().iter()), vec![0, 1, 2, 3, 4])
}

#[test]
fn vec() {
    let vec = vec![2, 3, 5, 7, 11];
    let map: &[i32] = &vec;
    assert_eq!(map.get(2), Some(&5));
    assert_eq!(map.get_index(10), None);
    assert_eq!(drain(map.domain().iter()), vec![0, 1, 2, 3, 4])
}

#[test]
fn slice_map_by_trait() {
    let map: &[i32] = &[2, 3, 5, 7, 11];
    assert_eq!(IndexedMap::get(&map, 4), Some(&11));
    assert_eq!(IndexedMap::get(&map, 5), None);
    assert_eq!(map.get_index(1), Some(&3));
}

#[test]
fn test1() {
    let domain = IntRange::new(5);
    let output = doubled(domain.iter());
    let mut map = VecMap::new(domain, output);
    assert_eq!(map.get(0), Some(0));
    assert_eq!(map.get(10), None);
    *map.get_mut(0).unwrap() = 3;
    assert_eq!(map.get(0), Some(3));
}

#[test]
fn test2() {
    let vec = vec![0, 2, 4, 6, 8];
    let mut map = VecMap::new(&vec, vec!['a', 'b', 'c', 'd', 'e']);
    assert_eq!(map.get(&4), Some('c'));
    assert_eq!(map.get(&6), Some('d'));
    assert_eq!(map.get_index(6), None);
    *map.get_mut(&8).unwrap() = 'f';
    assert_eq!(map.get(&8), Some('f'));
}

#[test]
fn fn_map_test() {
    let map = FnMap::new(
        FnSet::new(
            |n| if n < 81 { Some((n / 9, n % 9)) } else { None },
            |(i, j)| {
                if i < 9 && j < 9 {
                    Some(i * 9 + j)
                } else {
                    None
                }
            },
        ),
        |_, (i, j)| i * i + j * j,
    );

    assert_eq!(map.get((5, 5)), Some(50));
    assert_eq!(map.get((1, 10)), None);
    assert_eq!(map.get_index(80), Some(128));
    assert_eq!(map.get_index(81), None);
}

#[test]
fn vec_map_matching_lengths() {
    let map = VecMap::new(IntRange::new(5), vec![0, 2, 4, 6, 8]);
    assert_eq!(map.get(3), Some(6));
    assert_eq!(map.get(5), None);
    assert_eq!(map.get(-1), None);
    assert_eq!(map.domain().len(), 5);
}

#[test]
fn vec_map_scenario() {
    let mut map = VecMap::new(IntRange::new(4), vec!['z', 'y', 'x', 'w']);
    assert_eq!(map.get(2), Some('x'));
    assert_eq!(map.get_index(10), None);
    map.fill('q');
    for i in 0..4 {
        assert_eq!(map.get(i), Some('q'));
    }
    assert_eq!(map.get_index(3), Some('q'));
}

#[test]
fn vec_map_get_mut_nth() {
    let mut map = VecMap::new(IntRange::new(3u8), vec![1u64, 2, 3]);
    *map.get_mut_nth(2).unwrap() = 30;
    assert!(map.get_mut_nth(3).is_none());
    assert!(map.get_mut(7).is_none());
    assert_eq!(map.get(2), Some(30));
    assert_eq!(map.get_index(0), Some(1));
}

#[test]
fn fn_map_uses_index_and_element() {
    let map = FnMap::new(IntRange::new(4i64), |n: usize, x: i64| n as i64 * 100 + x);
    assert_eq!(map.get(3), Some(303));
    assert_eq!(map.get(4), None);
    assert_eq!(map.get_index(1), Some(101));
}

#[test]
fn list_graph_test() {
    let graph = ListGraph::edgeless(IntRange::new(5));
    assert_eq!(graph.num_vertices(), 5);
    assert_eq!(graph.num_edges(), 0);
    assert_eq!(graph.out_degree(3), 0);
    assert_eq!(graph.vertices().index_of(4), Some(4));
}

#[test]
fn graph_traits_on_edgeless() {
    let graph = ListGraph::edgeless(IntRange::new(3u16));
    assert_eq!(degree_sum(&graph, vec![0, 1, 2]), 0);
    assert!(is_directed(&graph));
}
