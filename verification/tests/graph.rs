use idea_graph::Graph;

#[test]
fn added_node_resolves_with_its_payload() {
    let mut g: Graph<String, u32> = Graph::new();
    let h = g.add_node("one".to_string());
    let node = g.get(h).expect("a fresh handle must resolve");
    assert_eq!(node.data().as_str(), "one");
    assert!(node.connections().is_empty());
}

#[test]
fn connection_records_endpoints_in_argument_order() {
    let mut g: Graph<u32, u32> = Graph::new();
    let n1 = g.add_node(1);
    let n2 = g.add_node(2);
    let h = g.connect_nodes(n1, n2, 7).expect("both endpoints resolve");
    let ends = g.get(h).expect("a fresh handle must resolve").nodes();
    assert_eq!(ends.len(), 2);
    assert!(ends[0] == n1);
    assert!(ends[1] == n2);
    assert_eq!(*g.get(h).unwrap().data(), 7);
    assert!(g.get(n1).unwrap().connections().contains(&h));
    assert!(g.get(n2).unwrap().connections().contains(&h));
}

#[test]
fn self_loop_appears_twice_in_the_one_list() {
    let mut g: Graph<u32, u32> = Graph::new();
    let n = g.add_node(1);
    let h = g.connect_nodes(n, n, 9).expect("the endpoint resolves");
    let list = g.get(n).unwrap().connections();
    assert_eq!(list.len(), 2);
    assert!(list[0] == h);
    assert!(list[1] == h);
    let ends = g.get(h).unwrap().nodes();
    assert!(ends[0] == n);
    assert!(ends[1] == n);
}

#[test]
fn handles_are_never_reused() {
    let mut g: Graph<u32, u32> = Graph::new();
    let mut node_handles = Vec::new();
    for i in 0..10u32 {
        node_handles.push(g.add_node(i));
    }
    for i in 0..node_handles.len() {
        for j in 0..node_handles.len() {
            if i != j {
                assert!(node_handles[i] != node_handles[j]);
            }
        }
    }
    let mut conn_handles = Vec::new();
    for i in 0..node_handles.len() - 1 {
        let h = g
            .connect_nodes(node_handles[i], node_handles[i + 1], i as u32)
            .expect("both endpoints resolve");
        conn_handles.push(h);
    }
    for i in 0..conn_handles.len() {
        for j in 0..conn_handles.len() {
            if i != j {
                assert!(conn_handles[i] != conn_handles[j]);
            }
        }
    }
}

#[test]
fn out_of_range_handles_resolve_to_nothing() {
    let mut producer: Graph<String, u32> = Graph::new();
    let _ = producer.add_node("a".to_string());
    let h = producer.add_node("b".to_string());

    let empty: Graph<String, u32> = Graph::new();
    assert!(empty.get(h).is_none());

    let mut shorter: Graph<String, u32> = Graph::new();
    let _ = shorter.add_node("x".to_string());
    assert!(shorter.get(h).is_none());
}

#[test]
fn payload_mutation_is_visible_and_framed() {
    let mut g: Graph<String, u32> = Graph::new();
    let h1 = g.add_node("first".to_string());
    let h2 = g.add_node("second".to_string());
    let h1_again = h1;
    *g.get_mut(h1).expect("the handle resolves").data_mut() = "changed".to_string();
    assert_eq!(g.get(h1).unwrap().data().as_str(), "changed");
    assert_eq!(g.get(h1_again).unwrap().data().as_str(), "changed");
    assert_eq!(g.get(h2).unwrap().data().as_str(), "second");
}

#[test]
fn connection_payload_mutation_is_visible() {
    let mut g: Graph<u32, u32> = Graph::new();
    let n1 = g.add_node(1);
    let n2 = g.add_node(2);
    let h = g.connect_nodes(n1, n2, 7).unwrap();
    *g.get_mut(h).expect("the handle resolves").mut_data() = 42;
    assert_eq!(*g.get(h).unwrap().data(), 42);
    let ends = g.get(h).unwrap().nodes();
    assert!(ends[0] == n1);
    assert!(ends[1] == n2);
}

#[test]
fn connection_lists_follow_creation_order() {
    let mut g: Graph<u32, u32> = Graph::new();
    let a = g.add_node(0);
    let b = g.add_node(1);
    let c = g.add_node(2);
    let h1 = g.connect_nodes(a, b, 10).expect("both endpoints resolve");
    let h2 = g.connect_nodes(c, a, 20).expect("both endpoints resolve");
    let list_a = g.get(a).unwrap().connections();
    assert_eq!(list_a.len(), 2);
    assert!(list_a[0] == h1);
    assert!(list_a[1] == h2);
    let list_b = g.get(b).unwrap().connections();
    assert_eq!(list_b.len(), 1);
    assert!(list_b[0] == h1);
    let list_c = g.get(c).unwrap().connections();
    assert_eq!(list_c.len(), 1);
    assert!(list_c[0] == h2);
}

#[test]
fn connect_fails_locally_on_unresolvable_endpoint() {
    let mut g: Graph<u32, u32> = Graph::new();
    let n = g.add_node(1);
    let mut other: Graph<u32, u32> = Graph::new();
    let _ = other.add_node(1);
    let foreign = other.add_node(2);
    assert!(g.connect_nodes(n, foreign, 9).is_none());
    assert!(g.connect_nodes(foreign, n, 9).is_none());
    assert!(g.get(n).unwrap().connections().is_empty());
    assert!(g.get(foreign).is_none());
}

#[test]
fn scenario_three_nodes_two_connections() {
    let mut g: Graph<String, String> = Graph::new();
    let first = g.add_node("Hello".to_string());
    let second = g.add_node("World".to_string());
    let third = g.add_node("Yay".to_string());
    let c1 = g
        .connect_nodes(first, second, "first to second".to_string())
        .expect("both endpoints resolve");
    let c2 = g
        .connect_nodes(third, first, "third to first".to_string())
        .expect("both endpoints resolve");
    let ends1 = g.get(c1).unwrap().nodes();
    assert!(ends1[0] == first);
    assert!(ends1[1] == second);
    let ends2 = g.get(c2).unwrap().nodes();
    assert!(ends2[0] == third);
    assert!(ends2[1] == first);
    assert_eq!(g.get(first).unwrap().data().as_str(), "Hello");
    assert_eq!(g.get(second).unwrap().data().as_str(), "World");
    assert_eq!(g.get(third).unwrap().data().as_str(), "Yay");
}
