use idea_graph::db::key::Key;
use idea_graph::db::types::{
    Connection, ConnectionKind, FullConnection, FullThing, Thing, ThingKind,
};

#[test]
fn keys_compare_by_row_identifier() {
    let a: Key<ThingKind> = Key::new(1);
    let b: Key<ThingKind> = Key::new(1);
    let c: Key<ThingKind> = Key::new(2);
    assert!(a == b);
    assert!(a != c);
    assert_eq!(a.id(), 1);
    let copied = a;
    assert!(copied == a);
    let cloned = a.clone();
    assert!(cloned == a);
}

#[test]
fn records_hold_their_fields() {
    let kind = ThingKind { name: "test".to_string() };
    let kind_key: Key<ThingKind> = Key::new(1);
    let thing = Thing { kind: kind_key, name: "Hello".to_string(), x: 200, y: 300 };
    assert_eq!(thing.name.as_str(), "Hello");
    assert_eq!(thing.x, 200);
    assert_eq!(thing.y, 300);
    assert!(thing.kind == kind_key);

    let conn_kind = ConnectionKind { name: "test".to_string(), lhs: kind_key, rhs: kind_key };
    assert!(conn_kind.lhs == conn_kind.rhs);

    let full_thing = FullThing { key: Key::new(7), thing, kind };
    assert_eq!(full_thing.key.id(), 7);

    let connection = Connection { kind: Key::new(1), lhs: Key::new(1), rhs: Key::new(2) };
    assert!(connection.lhs != connection.rhs);

    let full_connection = FullConnection {
        key: Key::new(9),
        connection,
        kind: conn_kind,
        from: (200, 300),
        to: (600, 400),
    };
    assert_eq!(full_connection.from, (200, 300));
    assert_eq!(full_connection.to, (600, 400));
    assert_eq!(full_connection.kind.name.as_str(), "test");
}
