use crate::index::Index;
use crate::node::Node;
use vstd::prelude::*;

verus! {

/// A graph edge: a caller-supplied payload plus its two endpoint node
/// handles, kept in the order the connecting call received them. The order
/// carries only first-argument / second-argument meaning; the core never
/// interprets it as a direction. Endpoints cannot change once set.
#[derive(Clone)]
pub struct Connection<NodeData, ConnectionData> {
    data: ConnectionData,
    nodes: [Index<Node<NodeData, ConnectionData>>; 2],
}

impl<NodeData, ConnectionData> Connection<NodeData, ConnectionData> {
    /// The payload, as contracts see it.
    pub closed spec fn spec_data(self) -> ConnectionData {
        self.data
    }

    /// The endpoint pair, as contracts see it: always two handles, in
    /// creation-argument order.
    pub closed spec fn spec_nodes(self) -> Seq<Index<Node<NodeData, ConnectionData>>> {
        self.nodes@
    }

    pub(crate) fn new(
        from: Index<Node<NodeData, ConnectionData>>,
        to: Index<Node<NodeData, ConnectionData>>,
        data: ConnectionData,
    ) -> (r: Self)
        ensures
            r.spec_data() == data,
            r.spec_nodes() === seq![from, to],
    {
        Connection { data, nodes: [from, to] }
    }

    /// Shared access to the payload.
    pub fn data(&self) -> (r: &ConnectionData)
        ensures
            *r == self.spec_data(),
    {
        &self.data
    }

    /// Exclusive access to the payload; whatever the caller writes through
    /// the reference is what every later lookup of this connection sees. The
    /// endpoints are untouched.
    pub fn mut_data(&mut self) -> (r: &mut ConnectionData)
        ensures
            *r == old(self).spec_data(),
            final(self).spec_data() == *final(r),
            final(self).spec_nodes() == old(self).spec_nodes(),
    {
        &mut self.data
    }

    /// The fixed two-element endpoint list, in creation-argument order.
    pub fn nodes(&self) -> (r: &[Index<Node<NodeData, ConnectionData>>])
        ensures
            r@ == self.spec_nodes(),
    {
        self.nodes.as_slice()
    }
}

} // verus!
