use crate::connection::Connection;
use crate::index::{resolve, Index, Indexable};
use crate::map::IndexMap;
use crate::node::Node;
use vstd::prelude::*;

verus! {

/// The graph container. It owns one arena of nodes and one arena of
/// connections, and it is the only component that mints valid handles or
/// resolves them. All node-to-connection relationships are handles into
/// these arenas, never direct references between entity values.
///
/// A handle is meaningful only against the graph whose arena minted it;
/// handing it to a different graph is a caller mistake the core does not
/// detect beyond an out-of-range check.
#[verifier::reject_recursive_types(NodeData)]
#[verifier::reject_recursive_types(ConnectionData)]
pub struct Graph<NodeData, ConnectionData> {
    pub(crate) nodes: IndexMap<Node<NodeData, ConnectionData>>,
    pub(crate) connections: IndexMap<Connection<NodeData, ConnectionData>>,
}

impl<NodeData, ConnectionData> Graph<NodeData, ConnectionData> {
    /// The node arena's contents, in allocation order.
    pub open(crate) spec fn nodes_seq(self) -> Seq<Node<NodeData, ConnectionData>> {
        self.nodes@
    }

    /// The connection arena's contents, in allocation order.
    pub open(crate) spec fn connections_seq(self) -> Seq<Connection<NodeData, ConnectionData>> {
        self.connections@
    }

    /// What `add_node` guarantees: the connection arena is untouched, one
    /// node holding `data` and an empty connection list is appended to the
    /// node arena, and the returned handle wraps the fresh offset just past
    /// the old arena.
    pub open spec fn add_node_post(
        pre: Self,
        post: Self,
        h: Index<Node<NodeData, ConnectionData>>,
        data: NodeData,
    ) -> bool {
        &&& post.connections_seq() == pre.connections_seq()
        &&& post.nodes_seq().len() == pre.nodes_seq().len() + 1
        &&& post.nodes_seq().drop_last() == pre.nodes_seq()
        &&& post.nodes_seq().last().spec_data() == data
        &&& post.nodes_seq().last().spec_connections() === Seq::empty()
        &&& h.offset() == pre.nodes_seq().len()
    }

    /// What a successful `connect_nodes` guarantees: one connection holding
    /// `data` and the endpoint pair `[from, to]` is appended to the
    /// connection arena, the returned handle wraps its fresh offset, and the
    /// new handle is appended to the connection list of each endpoint — to
    /// the one list twice when the two endpoints are the same node. No
    /// payload changes, and no other node changes at all.
    pub open spec fn connect_nodes_post(
        pre: Self,
        post: Self,
        from: Index<Node<NodeData, ConnectionData>>,
        to: Index<Node<NodeData, ConnectionData>>,
        data: ConnectionData,
        h: Index<Connection<NodeData, ConnectionData>>,
    ) -> bool {
        &&& h.offset() == pre.connections_seq().len()
        &&& post.connections_seq().len() == pre.connections_seq().len() + 1
        &&& post.connections_seq().drop_last() == pre.connections_seq()
        &&& post.connections_seq().last().spec_data() == data
        &&& post.connections_seq().last().spec_nodes() === seq![from, to]
        &&& post.nodes_seq().len() == pre.nodes_seq().len()
        &&& (forall|i: int|
            0 <= i < pre.nodes_seq().len() && i != from.offset() && i != to.offset()
                ==> post.nodes_seq()[i] == pre.nodes_seq()[i])
        &&& post.nodes_seq()[from.offset() as int].spec_data()
            == pre.nodes_seq()[from.offset() as int].spec_data()
        &&& post.nodes_seq()[to.offset() as int].spec_data() == pre.nodes_seq()[to.offset() as int].spec_data()
        &&& (from.offset() != to.offset() ==> {
            &&& post.nodes_seq()[from.offset() as int].spec_connections()
                == pre.nodes_seq()[from.offset() as int].spec_connections().push(h)
            &&& post.nodes_seq()[to.offset() as int].spec_connections()
                == pre.nodes_seq()[to.offset() as int].spec_connections().push(h)
        })
        &&& (from.offset() == to.offset()
            ==> post.nodes_seq()[from.offset() as int].spec_connections()
                == pre.nodes_seq()[from.offset() as int].spec_connections().push(h).push(h))
    }

    /// A graph with both arenas empty.
    pub fn new() -> (r: Self)
        ensures
            r.nodes_seq() === Seq::empty(),
            r.connections_seq() === Seq::empty(),
    {
        Graph { nodes: IndexMap::new(), connections: IndexMap::new() }
    }

    /// Allocates a node with an empty connection list. This never fails: the
    /// precondition only rules out running out of offsets, which no arena
    /// that fits in memory can do.
    pub fn add_node(&mut self, data: NodeData) -> (r: Index<Node<NodeData, ConnectionData>>)
        requires
            old(self).nodes_seq().len() < usize::MAX,
        ensures
            Self::add_node_post(*old(self), *final(self), r, data),
    {
        let r = self.nodes.insert(Node::new(data));
        proof {
            assert(final(self).nodes_seq().drop_last() =~= old(self).nodes_seq());
        }
        r
    }

    /// Allocates a connection with endpoints `[from, to]`, then registers the
    /// new connection's handle on both endpoint nodes. When an endpoint
    /// handle does not resolve in this graph — it is stale or foreign — the
    /// whole operation fails locally and the graph is left exactly as it
    /// was: no connection is ever left partially registered.
    pub fn connect_nodes(
        &mut self,
        from: Index<Node<NodeData, ConnectionData>>,
        to: Index<Node<NodeData, ConnectionData>>,
        data: ConnectionData,
    ) -> (r: Option<Index<Connection<NodeData, ConnectionData>>>)
        requires
            old(self).connections_seq().len() < usize::MAX,
        ensures
            r.is_some() <==> (from.offset() < old(self).nodes_seq().len() && to.offset() < old(
                self,
            ).nodes_seq().len()),
            r.is_some() ==> Self::connect_nodes_post(
                *old(self),
                *final(self),
                from,
                to,
                data,
                r.unwrap(),
            ),
            r.is_none() ==> *final(self) == *old(self),
    {
        let n = self.nodes.len();
        if from.value() >= n || to.value() >= n {
            return None;
        }
        let h = self.connections.insert(Connection::new(from, to, data));
        match self.nodes.get_mut(from) {
            Some(node) => node.add_connection(h),
            None => assert(false),
        }
        match self.nodes.get_mut(to) {
            Some(node) => node.add_connection(h),
            None => assert(false),
        }
        proof {
            assert(final(self).connections_seq().drop_last() =~= old(self).connections_seq());
        }
        Some(h)
    }

    /// Resolves a handle of either entity kind, dispatching purely by the
    /// handle's type parameter to the matching arena. Out of range — as a
    /// stale or foreign handle can be — means an empty result, never a
    /// crash.
    pub fn get<T: Indexable<NodeData, ConnectionData>>(&self, idx: Index<T>) -> (r: Option<&T>)
        ensures
            r.is_some() == resolve(*self, idx).is_some(),
            r.is_some() ==> *r.unwrap() == resolve(*self, idx).unwrap(),
    {
        T::get(self, idx)
    }

    /// Like `get`, but exclusive: what the caller writes through the result
    /// is what the arena holds afterwards; the other arena and every other
    /// entity are untouched.
    pub fn get_mut<T: Indexable<NodeData, ConnectionData>>(&mut self, idx: Index<T>) -> (r: Option<
        &mut T,
    >)
        ensures
            idx.offset() < T::arena(*old(self)).len() ==> r.is_some() && *r.unwrap() == T::arena(
                *old(self),
            )[idx.offset() as int] && T::arena(*final(self)) == T::arena(*old(self)).update(
                idx.offset() as int,
                *final(r.unwrap()),
            ) && T::other_arena_same(*old(self), *final(self)),
            idx.offset() >= T::arena(*old(self)).len() ==> r.is_none() && *final(self) == *old(
                self,
            ),
    {
        T::get_mut(self, idx)
    }
}

/// Law: immediately after `add_node(data)` returned `h`, resolving `h`
/// succeeds, the payload found equals `data`, and the connection list of the
/// new node is empty.
pub proof fn lemma_add_node_then_get<NodeData, ConnectionData>(
    pre: Graph<NodeData, ConnectionData>,
    post: Graph<NodeData, ConnectionData>,
    h: Index<Node<NodeData, ConnectionData>>,
    data: NodeData,
)
    requires
        Graph::add_node_post(pre, post, h, data),
    ensures
        resolve(post, h) == Some(post.nodes_seq().last()),
        resolve(post, h).unwrap().spec_data() == data,
        resolve(post, h).unwrap().spec_connections() === Seq::empty(),
{
}

/// Law: after a successful `connect_nodes(n1, n2, c)` returned `h`,
/// resolving `h` yields a connection whose endpoint pair is exactly
/// `[n1, n2]` — in argument order — and whose payload is `c`; and `h` is on
/// `n1`'s connection list and on `n2`'s, twice on the one shared list when
/// the endpoints are the same node.
pub proof fn lemma_connect_then_get<NodeData, ConnectionData>(
    pre: Graph<NodeData, ConnectionData>,
    post: Graph<NodeData, ConnectionData>,
    n1: Index<Node<NodeData, ConnectionData>>,
    n2: Index<Node<NodeData, ConnectionData>>,
    c: ConnectionData,
    h: Index<Connection<NodeData, ConnectionData>>,
)
    requires
        n1.offset() < pre.nodes_seq().len(),
        n2.offset() < pre.nodes_seq().len(),
        Graph::connect_nodes_post(pre, post, n1, n2, c, h),
    ensures
        resolve(post, h).is_some(),
        resolve(post, h).unwrap().spec_nodes() === seq![n1, n2],
        resolve(post, h).unwrap().spec_data() == c,
        post.nodes_seq()[n1.offset() as int].spec_connections().contains(h),
        post.nodes_seq()[n2.offset() as int].spec_connections().contains(h),
        n1.offset() == n2.offset() ==> post.nodes_seq()[n1.offset() as int].spec_connections()
            == pre.nodes_seq()[n1.offset() as int].spec_connections().push(h).push(h),
{
    let l1 = pre.nodes_seq()[n1.offset() as int].spec_connections();
    let l2 = pre.nodes_seq()[n2.offset() as int].spec_connections();
    if n1.offset() != n2.offset() {
        assert(post.nodes_seq()[n1.offset() as int].spec_connections()[l1.len() as int] == h);
        assert(post.nodes_seq()[n2.offset() as int].spec_connections()[l2.len() as int] == h);
    } else {
        assert(post.nodes_seq()[n1.offset() as int].spec_connections()[l1.len() as int] == h);
    }
}

/// Law: a handle whose offset is out of range for the queried graph — as a
/// handle from a different graph may be, and as every handle is against an
/// empty graph — never resolves to an entity.
pub proof fn lemma_out_of_range_never_resolves<
    NodeData,
    ConnectionData,
    T: Indexable<NodeData, ConnectionData>,
>(graph: Graph<NodeData, ConnectionData>, idx: Index<T>)
    requires
        idx.offset() >= T::arena(graph).len(),
    ensures
        resolve(graph, idx).is_none(),
{
}

/// Law: writing one node's payload — the arena update that `get_mut` plus
/// `data_mut` performs — is visible to every later lookup through any handle
/// carrying that offset, and every other node resolves exactly as before.
pub proof fn lemma_payload_update_frame<NodeData, ConnectionData>(
    pre: Graph<NodeData, ConnectionData>,
    post: Graph<NodeData, ConnectionData>,
    h: Index<Node<NodeData, ConnectionData>>,
    n: Node<NodeData, ConnectionData>,
)
    requires
        h.offset() < pre.nodes_seq().len(),
        post.nodes_seq() == pre.nodes_seq().update(h.offset() as int, n),
    ensures
        resolve(post, h) == Some(n),
        forall|other: Index<Node<NodeData, ConnectionData>>|
            other.offset() != h.offset() ==> #[trigger] resolve(post, other) == resolve(pre, other),
{
}

/// Law: handles are never reused: through any run of `add_node` calls on one
/// graph, the returned handles are pairwise distinct.
pub proof fn lemma_node_handles_never_reused<NodeData, ConnectionData>(
    graphs: Seq<Graph<NodeData, ConnectionData>>,
    handles: Seq<Index<Node<NodeData, ConnectionData>>>,
    payloads: Seq<NodeData>,
)
    requires
        graphs.len() == handles.len() + 1,
        payloads.len() == handles.len(),
        forall|i: int|
            0 <= i < handles.len() ==> Graph::add_node_post(
                graphs[i],
                graphs[i + 1],
                #[trigger] handles[i],
                payloads[i],
            ),
    ensures
        forall|i: int, j: int|
            0 <= i < j < handles.len() ==> handles[i].offset() != handles[j].offset(),
{
    assert forall|i: int, j: int| 0 <= i < j < handles.len() implies handles[i].offset()
        != handles[j].offset() by {
        lemma_node_arena_growth(graphs, handles, payloads, i, j);
    }
}

/// Each `add_node` step grows the node arena by exactly one, so the arena is
/// strictly longer at every later mint.
proof fn lemma_node_arena_growth<NodeData, ConnectionData>(
    graphs: Seq<Graph<NodeData, ConnectionData>>,
    handles: Seq<Index<Node<NodeData, ConnectionData>>>,
    payloads: Seq<NodeData>,
    i: int,
    j: int,
)
    requires
        graphs.len() == handles.len() + 1,
        payloads.len() == handles.len(),
        forall|k: int|
            0 <= k < handles.len() ==> Graph::add_node_post(
                graphs[k],
                graphs[k + 1],
                #[trigger] handles[k],
                payloads[k],
            ),
        0 <= i <= j < handles.len(),
    ensures
        graphs[j].nodes_seq().len() == graphs[i].nodes_seq().len() + (j - i),
    decreases j - i,
{
    if i < j {
        lemma_node_arena_growth(graphs, handles, payloads, i, j - 1);
        assert(Graph::add_node_post(graphs[j - 1], graphs[j], handles[j - 1], payloads[j - 1]));
    }
}

/// Law: handles are never reused, for connections just as for nodes: through
/// any run of successful `connect_nodes` calls on one graph, the returned
/// handles are pairwise distinct.
pub proof fn lemma_connection_handles_never_reused<NodeData, ConnectionData>(
    graphs: Seq<Graph<NodeData, ConnectionData>>,
    handles: Seq<Index<Connection<NodeData, ConnectionData>>>,
    froms: Seq<Index<Node<NodeData, ConnectionData>>>,
    tos: Seq<Index<Node<NodeData, ConnectionData>>>,
    payloads: Seq<ConnectionData>,
)
    requires
        graphs.len() == handles.len() + 1,
        froms.len() == handles.len(),
        tos.len() == handles.len(),
        payloads.len() == handles.len(),
        forall|i: int|
            0 <= i < handles.len() ==> Graph::connect_nodes_post(
                graphs[i],
                graphs[i + 1],
                froms[i],
                tos[i],
                payloads[i],
                #[trigger] handles[i],
            ),
    ensures
        forall|i: int, j: int|
            0 <= i < j < handles.len() ==> handles[i].offset() != handles[j].offset(),
{
    assert forall|i: int, j: int| 0 <= i < j < handles.len() implies handles[i].offset()
        != handles[j].offset() by {
        lemma_connection_arena_growth(graphs, handles, froms, tos, payloads, i, j);
    }
}

/// Each successful `connect_nodes` step grows the connection arena by
/// exactly one, so the arena is strictly longer at every later mint.
proof fn lemma_connection_arena_growth<NodeData, ConnectionData>(
    graphs: Seq<Graph<NodeData, ConnectionData>>,
    handles: Seq<Index<Connection<NodeData, ConnectionData>>>,
    froms: Seq<Index<Node<NodeData, ConnectionData>>>,
    tos: Seq<Index<Node<NodeData, ConnectionData>>>,
    payloads: Seq<ConnectionData>,
    i: int,
    j: int,
)
    requires
        graphs.len() == handles.len() + 1,
        froms.len() == handles.len(),
        tos.len() == handles.len(),
        payloads.len() == handles.len(),
        forall|k: int|
            0 <= k < handles.len() ==> Graph::connect_nodes_post(
                graphs[k],
                graphs[k + 1],
                froms[k],
                tos[k],
                payloads[k],
                #[trigger] handles[k],
            ),
        0 <= i <= j < handles.len(),
    ensures
        graphs[j].connections_seq().len() == graphs[i].connections_seq().len() + (j - i),
    decreases j - i,
{
    if i < j {
        lemma_connection_arena_growth(graphs, handles, froms, tos, payloads, i, j - 1);
        assert(Graph::connect_nodes_post(
            graphs[j - 1],
            graphs[j],
            froms[j - 1],
            tos[j - 1],
            payloads[j - 1],
            handles[j - 1],
        ));
    }
}

/// Law: connection-list order matches creation order. With three distinct
/// nodes, connecting the first to the second and then the third to the first
/// appends the first handle and then the second to the first node's list,
/// only the first handle to the second node's, and only the second handle to
/// the third node's.
pub proof fn lemma_connection_list_order<NodeData, ConnectionData>(
    g0: Graph<NodeData, ConnectionData>,
    g1: Graph<NodeData, ConnectionData>,
    g2: Graph<NodeData, ConnectionData>,
    a: Index<Node<NodeData, ConnectionData>>,
    b: Index<Node<NodeData, ConnectionData>>,
    c: Index<Node<NodeData, ConnectionData>>,
    d1: ConnectionData,
    d2: ConnectionData,
    h1: Index<Connection<NodeData, ConnectionData>>,
    h2: Index<Connection<NodeData, ConnectionData>>,
)
    requires
        a.offset() < g0.nodes_seq().len(),
        b.offset() < g0.nodes_seq().len(),
        c.offset() < g0.nodes_seq().len(),
        a.offset() != b.offset(),
        a.offset() != c.offset(),
        b.offset() != c.offset(),
        Graph::connect_nodes_post(g0, g1, a, b, d1, h1),
        Graph::connect_nodes_post(g1, g2, c, a, d2, h2),
    ensures
        g2.nodes_seq()[a.offset() as int].spec_connections() == g0.nodes_seq()[a.offset() as int]
            .spec_connections().push(h1).push(h2),
        g2.nodes_seq()[b.offset() as int].spec_connections() == g0.nodes_seq()[b.offset() as int]
            .spec_connections().push(h1),
        g2.nodes_seq()[c.offset() as int].spec_connections() == g0.nodes_seq()[c.offset() as int]
            .spec_connections().push(h2),
{
}

} // verus!
