use insignia_graph::domain::{Edge, EdgeType, Vertex, VertexData};
use insignia_graph::store::{merge_neighborhood, new_edge, EdgeTable};

fn v(kind: &str, id: &str) -> Vertex {
    Vertex::from_str(&format!("{}-{}", kind, id)).unwrap()
}

fn text(s: &str) -> Option<VertexData> {
    Some(VertexData::String(s.to_string()))
}

#[test]
fn put_edge_same_key_keeps_second() {
    let mut t = EdgeTable::new();
    let a = v("Document", "d");
    let b = v("S3", "k");
    t.put_edge(new_edge(&a, &EdgeType::DocumentS3, &b, text("first")));
    t.put_edge(new_edge(&a, &EdgeType::DocumentS3, &b, text("second")));
    assert_eq!(t.records().len(), 1);
    assert_eq!(t.records()[0].data, text("second"));
}

#[test]
fn put_edge_distinct_keys_keeps_both() {
    let mut t = EdgeTable::new();
    let a = v("Document", "d");
    t.put_edge(new_edge(&a, &EdgeType::DocumentS3, &v("S3", "k"), None));
    t.put_edge(new_edge(&a, &EdgeType::DocumentChecksum, &v("SHA256", "c"), None));
    t.put_edge(new_edge(&a, &EdgeType::DocumentS3, &v("S3", "k2"), None));
    assert_eq!(t.records().len(), 3);
}

#[test]
fn neighborhood_has_both_directions_and_self_loop_twice() {
    let mut t = EdgeTable::new();
    let a = v("User", "a");
    let b = v("Email", "b");
    let c = v("Document", "c");
    let ab = new_edge(&a, &EdgeType::UserEmail, &b, None);
    let ca = new_edge(&c, &EdgeType::DocumentOwner, &a, None);
    let aa = new_edge(&a, &EdgeType::UserSelf, &a, None);
    t.put_edge(ab.clone());
    t.put_edge(ca.clone());
    t.put_edge(aa.clone());
    t.put_edge(new_edge(&c, &EdgeType::DocumentS3, &v("S3", "x"), None));
    let n = t.neighborhood("User-a");
    assert_eq!(n, vec![ca.clone(), aa.clone(), ab.clone(), aa.clone()]);
    assert_eq!(t.edges_to("User-a"), vec![ca, aa.clone()]);
    assert_eq!(t.edges_from("User-a"), vec![ab, aa]);
    assert!(t.neighborhood("User-none").is_empty());
}

#[test]
fn edges_from_with_prefix_selects_namespace() {
    let mut t = EdgeTable::new();
    let u = v("User", "u");
    t.put_edge(new_edge(&u, &EdgeType::UserSelf, &u, None));
    t.put_edge(new_edge(&u, &EdgeType::DocumentOwner, &v("Document", "d"), None));
    t.put_edge(new_edge(&u, &EdgeType::UserPhone, &v("Phone", "1"), None));
    let usr: Vec<Edge> = t.edges_from_with_prefix("User-u", "usr_");
    assert_eq!(usr.len(), 2);
    assert_eq!(t.edges_from_with_prefix("User-u", "doc_acl_").len(), 1);
    assert_eq!(t.edges_from_with_prefix("User-x", "usr_").len(), 0);
}

#[test]
fn merge_puts_destination_half_first() {
    let a = new_edge(&v("User", "1"), &EdgeType::UserSelf, &v("User", "1"), None);
    let b = new_edge(&v("User", "2"), &EdgeType::UserSelf, &v("User", "2"), None);
    assert_eq!(merge_neighborhood(vec![a.clone()], vec![b.clone()]), vec![a, b]);
}
