use crate::connection::Connection;
use crate::index::Index;
use vstd::prelude::*;

verus! {

/// A graph vertex: a caller-supplied payload plus the ordered list of
/// handles to every connection incident to this node, in the order those
/// connections were created. A self-loop appears twice in the list, once per
/// endpoint role. The list only grows; nothing removes entries from it.
#[derive(Clone)]
pub struct Node<NodeData, ConnectionData> {
    data: NodeData,
    connections: Vec<Index<Connection<NodeData, ConnectionData>>>,
}

impl<NodeData, ConnectionData> Node<NodeData, ConnectionData> {
    /// The payload, as contracts see it.
    pub closed spec fn spec_data(self) -> NodeData {
        self.data
    }

    /// The incident-connection handle list, as contracts see it.
    pub closed spec fn spec_connections(self) -> Seq<Index<Connection<NodeData, ConnectionData>>> {
        self.connections@
    }

    pub(crate) fn new(data: NodeData) -> (r: Self)
        ensures
            r.spec_data() == data,
            r.spec_connections() === Seq::empty(),
    {
        Node { data, connections: Vec::new() }
    }

    /// Shared access to the payload.
    pub fn data(&self) -> (r: &NodeData)
        ensures
            *r == self.spec_data(),
    {
        &self.data
    }

    /// Exclusive access to the payload; whatever the caller writes through
    /// the reference is what every later lookup of this node sees. The
    /// connection list is untouched.
    pub fn data_mut(&mut self) -> (r: &mut NodeData)
        ensures
            *r == old(self).spec_data(),
            final(self).spec_data() == *final(r),
            final(self).spec_connections() == old(self).spec_connections(),
    {
        &mut self.data
    }

    /// Read-only view of the ordered incident-connection handle list.
    pub fn connections(&self) -> (r: &[Index<Connection<NodeData, ConnectionData>>])
        ensures
            r@ == self.spec_connections(),
    {
        self.connections.as_slice()
    }

    /// Appends one incident-connection handle; never removes, never
    /// deduplicates. Only the graph calls this, when a connection is created.
    pub(crate) fn add_connection(&mut self, idx: Index<Connection<NodeData, ConnectionData>>)
        ensures
            final(self).spec_data() == old(self).spec_data(),
            final(self).spec_connections() == old(self).spec_connections().push(idx),
    {
        self.connections.push(idx);
    }
}

} // verus!
