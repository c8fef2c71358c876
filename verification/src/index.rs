use core::marker::PhantomData;
use vstd::prelude::*;

use crate::connection::Connection;
use crate::graph::Graph;
use crate::node::Node;

verus! {

/// An opaque, copyable handle to one entity held in an arena.
///
/// The type parameter ties the handle to the entity kind it denotes, so a
/// node handle and a connection handle can never be interchanged. A handle
/// carries no ownership and is meaningful only for the graph whose arena
/// minted it.
pub struct Index<T> {
    pub(crate) idx: usize,
    pub(crate) marker: PhantomData<T>,
}

impl<T> Index<T> {
    /// The dense offset this handle wraps.
    pub closed spec fn offset(self) -> nat {
        self.idx as nat
    }

    pub(crate) fn new(idx: usize) -> (r: Self)
        ensures
            r.offset() == idx,
    {
        Index { idx, marker: PhantomData }
    }

    pub(crate) fn value(&self) -> (r: usize)
        ensures
            r == self.offset(),
    {
        self.idx
    }
}

/// What resolving a handle against its kind's arena yields: the entity at
/// the handle's offset, or nothing when the offset is out of range for the
/// queried graph.
pub open spec fn resolve<NodeData, ConnectionData, T: Indexable<NodeData, ConnectionData>>(
    graph: Graph<NodeData, ConnectionData>,
    idx: Index<T>,
) -> Option<T> {
    if idx.offset() < T::arena(graph).len() {
        Some(T::arena(graph)[idx.offset() as int])
    } else {
        None
    }
}

/// The one capability both entity kinds implement: knowing which of the
/// graph's two arenas entities of the kind live in, and fetching from it.
pub trait Indexable<NodeData, ConnectionData>: Sized {
    /// The arena, of the graph's two, that holds entities of this kind.
    spec fn arena(graph: Graph<NodeData, ConnectionData>) -> Seq<Self>;

    /// Whether the arena that does not hold this kind is the same in both
    /// graphs.
    spec fn other_arena_same(
        g1: Graph<NodeData, ConnectionData>,
        g2: Graph<NodeData, ConnectionData>,
    ) -> bool;

    fn get(graph: &Graph<NodeData, ConnectionData>, idx: Index<Self>) -> (r: Option<&Self>)
        ensures
            idx.offset() < Self::arena(*graph).len() ==> r.is_some() && *r.unwrap() == Self::arena(
                *graph,
            )[idx.offset() as int],
            idx.offset() >= Self::arena(*graph).len() ==> r.is_none();

    fn get_mut(graph: &mut Graph<NodeData, ConnectionData>, idx: Index<Self>) -> (r: Option<
        &mut Self,
    >)
        ensures
            idx.offset() < Self::arena(*old(graph)).len() ==> r.is_some() && *r.unwrap()
                == Self::arena(*old(graph))[idx.offset() as int] && Self::arena(*final(graph))
                == Self::arena(*old(graph)).update(idx.offset() as int, *final(r.unwrap()))
                && Self::other_arena_same(*old(graph), *final(graph)),
            idx.offset() >= Self::arena(*old(graph)).len() ==> r.is_none() && *final(graph)
                == *old(graph);
}

impl<NodeData, ConnectionData> Indexable<NodeData, ConnectionData> for Node<
    NodeData,
    ConnectionData,
> {
    open spec fn arena(graph: Graph<NodeData, ConnectionData>) -> Seq<Self> {
        graph.nodes_seq()
    }

    open spec fn other_arena_same(
        g1: Graph<NodeData, ConnectionData>,
        g2: Graph<NodeData, ConnectionData>,
    ) -> bool {
        g1.connections_seq() == g2.connections_seq()
    }

    fn get(graph: &Graph<NodeData, ConnectionData>, idx: Index<Self>) -> (r: Option<&Self>) {
        graph.nodes.get(idx)
    }

    fn get_mut(graph: &mut Graph<NodeData, ConnectionData>, idx: Index<Self>) -> (r: Option<
        &mut Self,
    >) {
        graph.nodes.get_mut(idx)
    }
}

impl<NodeData, ConnectionData> Indexable<NodeData, ConnectionData> for Connection<
    NodeData,
    ConnectionData,
> {
    open spec fn arena(graph: Graph<NodeData, ConnectionData>) -> Seq<Self> {
        graph.connections_seq()
    }

    open spec fn other_arena_same(
        g1: Graph<NodeData, ConnectionData>,
        g2: Graph<NodeData, ConnectionData>,
    ) -> bool {
        g1.nodes_seq() == g2.nodes_seq()
    }

    fn get(graph: &Graph<NodeData, ConnectionData>, idx: Index<Self>) -> (r: Option<&Self>) {
        graph.connections.get(idx)
    }

    fn get_mut(graph: &mut Graph<NodeData, ConnectionData>, idx: Index<Self>) -> (r: Option<
        &mut Self,
    >) {
        graph.connections.get_mut(idx)
    }
}

impl<T> Clone for Index<T> {
    fn clone(&self) -> (r: Index<T>)
        ensures
            r == *self,
    {
        Index { idx: self.idx, marker: self.marker }
    }
}

impl<T> Copy for Index<T> {}

impl<T> PartialEq for Index<T> {
    fn eq(&self, other: &Index<T>) -> bool {
        self.idx == other.idx
    }
}

impl<T> vstd::std_specs::cmp::PartialEqSpecImpl for Index<T> {
    open spec fn obeys_eq_spec() -> bool {
        true
    }

    open spec fn eq_spec(&self, other: &Index<T>) -> bool {
        self.offset() == other.offset()
    }
}

} // verus!
