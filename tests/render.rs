use insignia_graph::domain::{EdgeType, S3Document, UserData, Vertex, VertexData};
use insignia_graph::render::{format_row, format_row_attribute, format_vertex, render_neighborhood, sanitize};
use insignia_graph::store::{new_edge, EdgeTable};

#[test]
fn rows() {
    assert_eq!(format_row("x"), "<tr><td colspan=\"2\" align=\"left\">x</td></tr>");
    assert_eq!(
        format_row_attribute("k", Some("v".to_string())),
        "<tr><td align=\"left\">k</td><td align=\"left\">v</td></tr>"
    );
    assert_eq!(format_row_attribute("k", None), "<tr><td align=\"left\">k</td></tr>");
}

#[test]
fn payload_rows() {
    let s3 = format_vertex(&VertexData::S3Document(S3Document { bucket: "b".to_string(), key: "k".to_string() }));
    assert_eq!(
        s3,
        format!("{}{}{}", format_row("<b>S3Document</b>"), format_row_attribute("bucket", Some("b".to_string())), format_row_attribute("key", Some("k".to_string())))
    );
    let u = format_vertex(&VertexData::UserData(UserData { name: None, given_name: Some("G".to_string()), surname: None }));
    assert!(u.contains("<td align=\"left\">given_name</td><td align=\"left\">G</td>"));
    assert!(u.starts_with("<tr><td colspan=\"2\" align=\"left\"><b>UserData</b></td></tr>"));
}

#[test]
fn sanitize_strips_markup_unsafe_characters() {
    assert_eq!(sanitize("Email-a.b+c@d-e"), "Emailabcde");
    assert_eq!(sanitize("User-ö"), "Userö");
}

#[test]
fn two_outgoing_edges() {
    let mut t = EdgeTable::new();
    let a = Vertex::User("a".to_string());
    let b = Vertex::Email("b@x".to_string());
    let c = Vertex::Phone("1".to_string());
    t.put_edge(new_edge(&a, &EdgeType::UserEmail, &b, None));
    t.put_edge(new_edge(&a, &EdgeType::UserPhone, &c, None));
    let (markup, links) = t.vertex_dot("User-a");
    assert_eq!(markup.matches("[ label=<").count(), 3);
    assert_eq!(markup.matches(" -> ").count(), 2);
    assert_eq!(links.matches("<li>").count(), 3);
    assert_eq!(
        links,
        "<ul><li><a href=\"?vertex-id=Email-b@x\">Email-b@x</a></li><li><a href=\"?vertex-id=User-a\">User-a</a></li><li><a href=\"?vertex-id=Phone-1\">Phone-1</a></li></ul>"
    );
    assert!(markup.starts_with("digraph { \n            node [shape=plaintext fontname=\"Sans serif\" fontsize=\"8\"];\n             Emailbx [ label=<"));
    assert!(markup.ends_with("Usera -> Emailbx\nUsera -> Phone1\n            }"));
}

#[test]
fn empty_neighborhood() {
    let (markup, links) = render_neighborhood(&vec![]);
    assert_eq!(
        markup,
        "digraph { \n            node [shape=plaintext fontname=\"Sans serif\" fontsize=\"8\"];\n            \n            \n            }"
    );
    assert_eq!(links, "<ul></ul>");
}
