//! Finite indexed sets, maps keyed by them, and integer ranges.
//!
//! Every set here is a bijection between its elements and the index range
//! `0..len`: `index(i)` and `index_of(x)` are mutual inverses, and iteration
//! visits the elements in ascending index order.
pub mod index_int;
pub mod int_range_iter;
pub mod set;
pub mod collections;
pub mod int_range;
pub mod mapped_set_iter;
pub mod fn_set;
pub mod singleton;
pub mod map_num;
pub mod map;
pub mod vec_map;
pub mod fn_map;
pub mod graph;
pub mod list_graph;

pub use index_int::IndexInt;
pub use int_range_iter::{IntRangeIter, RangeIter};
pub use set::IndexedSet;
pub use int_range::{IdNum, IntRange, Range};
pub use mapped_set_iter::{MapNumIter, MappedSetIter};
pub use fn_set::{FnSet, MapSet};
pub use singleton::Singleton;
pub use map_num::MapNum;
pub use map::IndexedMap;
pub use vec_map::VecMap;
pub use fn_map::FnMap;
pub use graph::{DiGraph, Graph, InEdges, OutEdges, UnGraph};
pub use list_graph::{Edge, ListGraph};
