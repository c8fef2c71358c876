mod connection;
pub mod db;
mod graph;
mod index;
mod map;
mod node;

pub use crate::connection::Connection;
pub use crate::graph::Graph;
pub use crate::index::Index;
pub use crate::node::Node;
