use crate::db::key::Key;
use vstd::prelude::*;

verus! {

/// A kind of thing the store knows: just its display name.
pub struct ThingKind {
    pub name: String,
}

/// A kind of connection: its name plus the pair of thing kinds it may join,
/// in left-hand / right-hand order. The store only accepts a connection
/// whose endpoints' kinds match some declared pair.
pub struct ConnectionKind {
    pub name: String,
    pub lhs: Key<ThingKind>,
    pub rhs: Key<ThingKind>,
}

/// One stored thing: its kind, display name and position.
pub struct Thing {
    pub kind: Key<ThingKind>,
    pub name: String,
    pub x: i64,
    pub y: i64,
}

/// One stored connection: its kind and its two endpoint things, in
/// left-hand / right-hand order.
pub struct Connection {
    pub kind: Key<ConnectionKind>,
    pub lhs: Key<Thing>,
    pub rhs: Key<Thing>,
}

/// A thing joined with its kind, as the listing query returns it.
pub struct FullThing {
    pub key: Key<Thing>,
    pub thing: Thing,
    pub kind: ThingKind,
}

/// A connection joined with its kind and with the positions of its two
/// endpoint things.
pub struct FullConnection {
    pub key: Key<Connection>,
    pub connection: Connection,
    pub kind: ConnectionKind,
    pub from: (i64, i64),
    pub to: (i64, i64),
}

} // verus!
