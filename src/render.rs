//! The neighbourhood renderer: directed-graph markup with one node per
//! vertex touched and one edge line per incident edge, and a list of links
//! to the vertices touched.

use vstd::prelude::*;
use vstd::string::*;
use crate::domain::{
    Edge, S3Document, SessionData, UserData, VertexData,
};
use crate::users::opt_view;
use crate::store::{neighborhood_of, EdgeTable};

verus! {

/// A table row spanning both columns.
pub open spec fn row(label: Seq<char>) -> Seq<char> {
    "<tr><td colspan=\"2\" align=\"left\">"@ + label + "</td></tr>"@
}

/// A row with a key and, when present, its value.
pub open spec fn attribute_row(key: Seq<char>, val: Option<Seq<char>>) -> Seq<char> {
    match val {
        Some(v) => "<tr><td align=\"left\">"@ + key + "</td><td align=\"left\">"@ + v + "</td></tr>"@,
        None => "<tr><td align=\"left\">"@ + key + "</td></tr>"@,
    }
}

/// The rows of a storage location.
pub open spec fn s3_rows(d: S3Document) -> Seq<char> {
    row("<b>S3Document</b>"@) + attribute_row("bucket"@, Some(d.bucket@)) + attribute_row("key"@, Some(d.key@))
}

/// The rows of a plain text payload.
pub open spec fn string_rows(s: Seq<char>) -> Seq<char> {
    row("<b>String</b>"@) + row(s)
}

/// The rows of a user profile.
pub open spec fn user_rows(d: UserData) -> Seq<char> {
    row("<b>UserData</b>"@) + attribute_row("name"@, opt_view(d.name)) + attribute_row(
        "given_name"@,
        opt_view(d.given_name),
    ) + attribute_row("surname"@, opt_view(d.surname))
}

/// The rows of a session state.
pub open spec fn session_rows(d: SessionData) -> Seq<char> {
    row("<b>SessionData</b>"@) + attribute_row("created"@, opt_view(d.created)) + attribute_row(
        "login"@,
        opt_view(d.login),
    ) + attribute_row("logout"@, opt_view(d.logout)) + attribute_row(
        "auth_data"@,
        opt_view(d.auth_data),
    )
}

/// The rows of a payload, by its variant.
pub open spec fn payload_rows(d: VertexData) -> Seq<char> {
    match d {
        VertexData::S3Document(x) => s3_rows(x),
        VertexData::String(x) => string_rows(x@),
        VertexData::UserData(x) => user_rows(x),
        VertexData::SessionData(x) => session_rows(x),
    }
}

/// A table row spanning both columns.
pub fn format_row(label: &str) -> (r: String)
    ensures
        r@ == row(label@),
{
    let mut r = String::from_str("<tr><td colspan=\"2\" align=\"left\">");
    r.append(label);
    r.append("</td></tr>");
    r
}

/// A row with a key and, when present, its value.
pub fn format_row_attribute(key: &str, val: Option<String>) -> (r: String)
    ensures
        r@ == attribute_row(key@, opt_view(val)),
{
    let mut r = String::from_str("<tr><td align=\"left\">");
    r.append(key);
    match val {
        Some(v) => {
            r.append("</td><td align=\"left\">");
            r.append(v.as_str());
            r.append("</td></tr>");
        },
        None => {
            r.append("</td></tr>");
        },
    }
    r
}

/// The rows of a storage location.
pub fn dot_format_s3_document(data: &S3Document) -> (r: String)
    ensures
        r@ == s3_rows(*data),
{
    let mut res = format_row("<b>S3Document</b>");
    res.append(format_row_attribute("bucket", Some(data.bucket.clone())).as_str());
    res.append(format_row_attribute("key", Some(data.key.clone())).as_str());
    res
}

/// The rows of a plain text payload.
pub fn dot_format_string(data: &str) -> (r: String)
    ensures
        r@ == string_rows(data@),
{
    let mut res = format_row("<b>String</b>");
    res.append(format_row(data).as_str());
    res
}

/// The rows of a user profile.
pub fn dot_format_user_data(data: &UserData) -> (r: String)
    ensures
        r@ == user_rows(*data),
{
    let mut res = format_row("<b>UserData</b>");
    res.append(format_row_attribute("name", data.name.clone()).as_str());
    res.append(format_row_attribute("given_name", data.given_name.clone()).as_str());
    res.append(format_row_attribute("surname", data.surname.clone()).as_str());
    res
}

/// The rows of a session state.
pub fn dot_format_session_data(data: &SessionData) -> (r: String)
    ensures
        r@ == session_rows(*data),
{
    let mut res = format_row("<b>SessionData</b>");
    res.append(format_row_attribute("created", data.created.clone()).as_str());
    res.append(format_row_attribute("login", data.login.clone()).as_str());
    res.append(format_row_attribute("logout", data.logout.clone()).as_str());
    res.append(format_row_attribute("auth_data", data.auth_data.clone()).as_str());
    res
}

/// The rows of a payload, by its variant.
pub fn format_vertex(data: &VertexData) -> (r: String)
    ensures
        r@ == payload_rows(*data),
{
    match data {
        VertexData::S3Document(d) => dot_format_s3_document(d),
        VertexData::String(d) => dot_format_string(d.as_str()),
        VertexData::UserData(d) => dot_format_user_data(d),
        VertexData::SessionData(d) => dot_format_session_data(d),
    }
}

/// A character kept in a markup identifier.
pub open spec fn id_char(c: char) -> bool {
    c != '-' && c != '.' && c != '+' && c != '@'
}

/// A vertex string as a markup identifier: `-`, `.`, `+` and `@` removed.
pub open spec fn sanitized(s: Seq<char>) -> Seq<char> {
    s.filter(|c: char| id_char(c))
}

/// `s` as a markup identifier.
pub fn sanitize(s: &str) -> (r: String)
    ensures
        r@ == sanitized(s@),
{
    let n = s.unicode_len();
    let mut r = String::new();
    let mut i: usize = 0;
    while i < n
        invariant
            n == s@.len(),
            i <= n,
            r@ == s@.take(i as int).filter(|c: char| id_char(c)),
        decreases n - i,
    {
        proof {
            assert(s@.take(i + 1).drop_last() =~= s@.take(i as int));
            reveal(Seq::filter);
        }
        let c = s.get_char(i);
        if c != '-' && c != '.' && c != '+' && c != '@' {
            let one = s.substring_char(i, i + 1);
            assert(one@ =~= seq![c]);
            r.append(one);
            assert(r@ =~= s@.take(i + 1).filter(|c: char| id_char(c)));
        }
        i = i + 1;
    }
    assert(s@.take(n as int) =~= s@);
    r
}

/// A vertex to draw: its string, and the payload of the last edge into it
/// (`None` where it has none, or is only ever a source).
pub type Node = (String, Option<VertexData>);

/// The rows of a node's payload; a node without one shows empty text.
pub open spec fn node_rows(d: Option<VertexData>) -> Seq<char> {
    match d {
        Some(x) => payload_rows(x),
        None => string_rows(Seq::empty()),
    }
}

/// No two nodes share a vertex string.
pub open spec fn nodes_unique(s: Seq<Node>) -> bool {
    forall|i: int, j: int| 0 <= i < s.len() && 0 <= j < s.len() && i != j ==> s[i].0@ != s[j].0@
}

/// Sets the payload of the node for `k`, adding the node if it is new.
pub open spec fn set_node(s: Seq<Node>, k: String, d: Option<VertexData>) -> Seq<Node> {
    if exists|i: int| 0 <= i < s.len() && s[i].0@ == k@ {
        let i = choose|i: int| 0 <= i < s.len() && s[i].0@ == k@;
        s.update(i, (s[i].0, d))
    } else {
        s.push((k, d))
    }
}

/// Adds a node for `k` without payload, unless there is one.
pub open spec fn add_node(s: Seq<Node>, k: String) -> Seq<Node> {
    if exists|i: int| 0 <= i < s.len() && s[i].0@ == k@ {
        s
    } else {
        s.push((k, None))
    }
}

/// The nodes that the edges touch, in the order first touched: for each
/// edge its destination, with the edge's payload, then its source.
pub open spec fn nodes_of(edges: Seq<Edge>) -> Seq<Node>
    decreases edges.len(),
{
    if edges.len() == 0 {
        Seq::empty()
    } else {
        let e = edges.last();
        add_node(set_node(nodes_of(edges.drop_last()), e.vertex_b, e.data), e.vertex_a)
    }
}

/// The strings of the nodes.
pub open spec fn node_ids(s: Seq<Node>) -> Seq<Seq<char>> {
    s.map_values(|n: Node| n.0@)
}

/// `parts` joined with `sep` between neighbours.
pub open spec fn join(parts: Seq<Seq<char>>, sep: Seq<char>) -> Seq<char>
    decreases parts.len(),
{
    if parts.len() == 0 {
        Seq::empty()
    } else if parts.len() == 1 {
        parts[0]
    } else {
        join(parts.drop_last(), sep) + sep + parts.last()
    }
}

/// The declaration of one node.
pub open spec fn node_decl(n: Node) -> Seq<char> {
    " "@ + sanitized(n.0@)
        + " [ label=<\n        <table border=\"1\" cellborder=\"0\" cellspacing=\"1\" width=\"250\">\n        "@
        + node_rows(n.1) + "\n        "@ + row(n.0@) + "\n        </table>>];\n    "@
}

/// The declaration of one edge.
pub open spec fn edge_decl(e: Edge) -> Seq<char> {
    sanitized(e.vertex_a@) + " -> "@ + sanitized(e.vertex_b@)
}

/// The link to one vertex.
pub open spec fn link(id: Seq<char>) -> Seq<char> {
    "<li><a href=\"?vertex-id="@ + id + "\">"@ + id + "</a></li>"@
}

/// The graph markup for the edges.
pub open spec fn graph_markup(edges: Seq<Edge>) -> Seq<char> {
    "digraph { \n            node [shape=plaintext fontname=\"Sans serif\" fontsize=\"8\"];\n            "@
        + join(nodes_of(edges).map_values(|n: Node| node_decl(n)), "\n"@) + "\n            "@
        + join(edges.map_values(|e: Edge| edge_decl(e)), "\n"@) + "\n            }"@
}

/// The list of links to the vertices the edges touch.
pub open spec fn link_list(edges: Seq<Edge>) -> Seq<char> {
    "<ul>"@ + join(node_ids(nodes_of(edges)).map_values(|id: Seq<char>| link(id)), Seq::empty())
        + "</ul>"@
}

/// The position of the node for `k`.
fn find_node(nodes: &Vec<Node>, k: &String) -> (r: Option<usize>)
    requires
        nodes_unique(nodes@),
    ensures
        match r {
            Some(i) => i < nodes@.len() && nodes@[i as int].0@ == k@,
            None => !exists|i: int| 0 <= i < nodes@.len() && nodes@[i].0@ == k@,
        },
{
    let mut i: usize = 0;
    while i < nodes.len()
        invariant
            i <= nodes@.len(),
            forall|j: int| 0 <= j < i ==> nodes@[j].0@ != k@,
        decreases nodes@.len() - i,
    {
        if nodes[i].0 == *k {
            return Some(i);
        }
        i = i + 1;
    }
    None
}

/// The nodes that `edges` touch, as `nodes_of` orders them.
pub fn collect_nodes(edges: &Vec<Edge>) -> (r: Vec<Node>)
    ensures
        r@ == nodes_of(edges@),
        nodes_unique(r@),
{
    let mut nodes: Vec<Node> = Vec::new();
    let mut i: usize = 0;
    while i < edges.len()
        invariant
            i <= edges@.len(),
            nodes@ == nodes_of(edges@.take(i as int)),
            nodes_unique(nodes@),
        decreases edges@.len() - i,
    {
        assert(edges@.take(i + 1).drop_last() =~= edges@.take(i as int));
        let e = &edges[i];
        let ghost before = nodes@;
        let data = match &e.data {
            Some(d) => Some(d.clone()),
            None => None,
        };
        match find_node(&nodes, &e.vertex_b) {
            Some(j) => {
                proof {
                    let k = choose|k: int| 0 <= k < before.len() && before[k].0@ == e.vertex_b@;
                    assert(k == j);
                }
                let key = nodes[j].0.clone();
                nodes.set(j, (key, data));
                assert(nodes_unique(nodes@)) by {
                    assert forall|a: int, b: int|
                        0 <= a < nodes@.len() && 0 <= b < nodes@.len() && a != b implies nodes@[a].0@
                        != nodes@[b].0@ by {
                        assert(before[a].0@ != before[b].0@);
                    }
                }
            },
            None => {
                nodes.push((e.vertex_b.clone(), data));
            },
        }
        assert(nodes@ == set_node(before, e.vertex_b, e.data));
        if find_node(&nodes, &e.vertex_a).is_none() {
            nodes.push((e.vertex_a.clone(), None));
        }
        i = i + 1;
    }
    assert(edges@.take(i as int) =~= edges@);
    nodes
}

/// Joining one more part.
proof fn lemma_join_push(s: Seq<Seq<char>>, x: Seq<char>, sep: Seq<char>)
    ensures
        join(s.push(x), sep) == (if s.len() == 0 { x } else { join(s, sep) + sep + x }),
{
    assert(s.push(x).drop_last() =~= s);
    assert(s.push(x).last() == x);
    if s.len() == 0 {
        assert(s.push(x) =~= seq![x]);
    }
}

/// The declaration of one node.
fn format_node(n: &Node) -> (r: String)
    ensures
        r@ == node_decl(*n),
{
    let mut r = String::from_str(" ");
    r.append(sanitize(n.0.as_str()).as_str());
    r.append(" [ label=<\n        <table border=\"1\" cellborder=\"0\" cellspacing=\"1\" width=\"250\">\n        ");
    let rows = match &n.1 {
        Some(d) => format_vertex(d),
        None => {
            let empty = String::new();
            dot_format_string(empty.as_str())
        },
    };
    r.append(rows.as_str());
    r.append("\n        ");
    r.append(format_row(n.0.as_str()).as_str());
    r.append("\n        </table>>];\n    ");
    r
}

/// The declaration of one edge.
fn format_edge(e: &Edge) -> (r: String)
    ensures
        r@ == edge_decl(*e),
{
    let mut r = sanitize(e.vertex_a.as_str());
    r.append(" -> ");
    r.append(sanitize(e.vertex_b.as_str()).as_str());
    r
}

/// The link to one vertex.
fn format_link(id: &str) -> (r: String)
    ensures
        r@ == link(id@),
{
    let mut r = String::from_str("<li><a href=\"?vertex-id=");
    r.append(id);
    r.append("\">");
    r.append(id);
    r.append("</a></li>");
    r
}

/// The graph markup and the link list for a vertex's neighbourhood edges.
pub fn render_neighborhood(edges: &Vec<Edge>) -> (r: (String, String))
    ensures
        r.0@ == graph_markup(edges@),
        r.1@ == link_list(edges@),
{
    let nodes = collect_nodes(edges);
    let mut node_part = String::new();
    let mut link_part = String::new();
    let mut i: usize = 0;
    while i < nodes.len()
        invariant
            i <= nodes@.len(),
            node_part@ == join(nodes@.take(i as int).map_values(|n: Node| node_decl(n)), "\n"@),
            link_part@ == join(
                nodes@.take(i as int).map_values(|n: Node| link(n.0@)),
                Seq::<char>::empty(),
            ),
        decreases nodes@.len() - i,
    {
        let ghost pre = nodes@.take(i as int);
        assert(nodes@.take(i + 1) =~= pre.push(nodes@[i as int]));
        assert(pre.push(nodes@[i as int]).map_values(|n: Node| node_decl(n)) =~= pre.map_values(
            |n: Node| node_decl(n),
        ).push(node_decl(nodes@[i as int])));
        assert(pre.push(nodes@[i as int]).map_values(|n: Node| link(n.0@)) =~= pre.map_values(
            |n: Node| link(n.0@),
        ).push(link(nodes@[i as int].0@)));
        proof {
            lemma_join_push(pre.map_values(|n: Node| node_decl(n)), node_decl(nodes@[i as int]), "\n"@);
            lemma_join_push(pre.map_values(|n: Node| link(n.0@)), link(nodes@[i as int].0@), Seq::<char>::empty());
        }
        if i > 0 {
            node_part.append("\n");
        }
        node_part.append(format_node(&nodes[i]).as_str());
        link_part.append(format_link(nodes[i].0.as_str()).as_str());
        assert(link_part@ =~= join(
            nodes@.take(i + 1).map_values(|n: Node| link(n.0@)),
            Seq::<char>::empty(),
        ));
        i = i + 1;
    }
    assert(nodes@.take(i as int) =~= nodes@);
    assert(nodes@.map_values(|n: Node| link(n.0@)) =~= node_ids(nodes@).map_values(
        |id: Seq<char>| link(id),
    ));
    let mut edge_part = String::new();
    let mut k: usize = 0;
    while k < edges.len()
        invariant
            k <= edges@.len(),
            edge_part@ == join(edges@.take(k as int).map_values(|e: Edge| edge_decl(e)), "\n"@),
        decreases edges@.len() - k,
    {
        let ghost pre = edges@.take(k as int);
        assert(edges@.take(k + 1) =~= pre.push(edges@[k as int]));
        assert(pre.push(edges@[k as int]).map_values(|e: Edge| edge_decl(e)) =~= pre.map_values(
            |e: Edge| edge_decl(e),
        ).push(edge_decl(edges@[k as int])));
        proof {
            lemma_join_push(pre.map_values(|e: Edge| edge_decl(e)), edge_decl(edges@[k as int]), "\n"@);
        }
        if k > 0 {
            edge_part.append("\n");
        }
        edge_part.append(format_edge(&edges[k]).as_str());
        k = k + 1;
    }
    assert(edges@.take(k as int) =~= edges@);
    let mut markup = String::from_str(
        "digraph { \n            node [shape=plaintext fontname=\"Sans serif\" fontsize=\"8\"];\n            ",
    );
    markup.append(node_part.as_str());
    markup.append("\n            ");
    markup.append(edge_part.as_str());
    markup.append("\n            }");
    let mut links = String::from_str("<ul>");
    links.append(link_part.as_str());
    links.append("</ul>");
    (markup, links)
}

/// A vertex with two outgoing edges to two distinct other vertices renders
/// as three node declarations (first destination, source, second
/// destination), two edge declarations, and a link to each of the three.
pub proof fn lemma_render_two_outgoing(e1: Edge, e2: Edge)
    requires
        e1.vertex_a@ == e2.vertex_a@,
        e1.vertex_b@ != e2.vertex_b@,
        e1.vertex_b@ != e1.vertex_a@,
        e2.vertex_b@ != e2.vertex_a@,
    ensures
        ({
            let n1: Node = (e1.vertex_b, e1.data);
            let n2: Node = (e1.vertex_a, None);
            let n3: Node = (e2.vertex_b, e2.data);
            &&& nodes_of(seq![e1, e2]) == seq![n1, n2, n3]
            &&& graph_markup(seq![e1, e2]) == "digraph { \n            node [shape=plaintext fontname=\"Sans serif\" fontsize=\"8\"];\n            "@
                + (node_decl(n1) + "\n"@ + node_decl(n2) + "\n"@ + node_decl(n3)) + "\n            "@
                + (edge_decl(e1) + "\n"@ + edge_decl(e2)) + "\n            }"@
            &&& link_list(seq![e1, e2]) == "<ul>"@ + (link(e1.vertex_b@) + link(e1.vertex_a@) + link(
                e2.vertex_b@,
            )) + "</ul>"@
        }),
{
    let n1: Node = (e1.vertex_b, e1.data);
    let n2: Node = (e1.vertex_a, None);
    let n3: Node = (e2.vertex_b, e2.data);
    let s1 = seq![e1];
    let s2 = seq![e1, e2];
    assert(s1.drop_last() =~= Seq::<Edge>::empty());
    assert(s2.drop_last() =~= s1);
    let empty = Seq::<Node>::empty();
    assert(nodes_of(Seq::<Edge>::empty()) == empty);
    assert(s1.last() == e1 && s2.last() == e2);
    assert(set_node(empty, e1.vertex_b, e1.data) =~= seq![n1]);
    let one = seq![n1];
    assert(!exists|i: int| 0 <= i < one.len() && one[i].0@ == e1.vertex_a@);
    assert(add_node(one, e1.vertex_a) =~= seq![n1, n2]);
    assert(nodes_of(s1) =~= seq![n1, n2]);
    let two = seq![n1, n2];
    assert(!exists|i: int| 0 <= i < two.len() && two[i].0@ == e2.vertex_b@);
    assert(set_node(two, e2.vertex_b, e2.data) =~= seq![n1, n2, n3]);
    let three = seq![n1, n2, n3];
    assert(three[1].0@ == e2.vertex_a@);
    assert(nodes_of(s2) =~= three);
    let decls = three.map_values(|n: Node| node_decl(n));
    assert(decls =~= seq![node_decl(n1)].push(node_decl(n2)).push(node_decl(n3)));
    lemma_join_push(Seq::empty(), node_decl(n1), "\n"@);
    lemma_join_push(seq![node_decl(n1)], node_decl(n2), "\n"@);
    lemma_join_push(seq![node_decl(n1)].push(node_decl(n2)), node_decl(n3), "\n"@);
    assert(Seq::<Seq<char>>::empty().push(node_decl(n1)) =~= seq![node_decl(n1)]);
    let lines = s2.map_values(|e: Edge| edge_decl(e));
    assert(lines =~= seq![edge_decl(e1)].push(edge_decl(e2)));
    lemma_join_push(Seq::empty(), edge_decl(e1), "\n"@);
    lemma_join_push(seq![edge_decl(e1)], edge_decl(e2), "\n"@);
    assert(Seq::<Seq<char>>::empty().push(edge_decl(e1)) =~= seq![edge_decl(e1)]);
    let links = node_ids(three).map_values(|id: Seq<char>| link(id));
    assert(links =~= seq![link(e1.vertex_b@)].push(link(e1.vertex_a@)).push(link(e2.vertex_b@)));
    lemma_join_push(Seq::empty(), link(e1.vertex_b@), Seq::empty());
    lemma_join_push(seq![link(e1.vertex_b@)], link(e1.vertex_a@), Seq::empty());
    lemma_join_push(seq![link(e1.vertex_b@)].push(link(e1.vertex_a@)), link(e2.vertex_b@), Seq::empty());
    assert(Seq::<Seq<char>>::empty().push(link(e1.vertex_b@)) =~= seq![link(e1.vertex_b@)]);
    assert(link(e1.vertex_b@) + Seq::<char>::empty() + link(e1.vertex_a@) =~= link(e1.vertex_b@) + link(e1.vertex_a@));
    assert(link(e1.vertex_b@) + link(e1.vertex_a@) + Seq::<char>::empty() + link(e2.vertex_b@) =~= link(e1.vertex_b@) + link(e1.vertex_a@) + link(e2.vertex_b@));
}

impl EdgeTable {
    /// The graph markup and link list of `vertex_id`'s neighbourhood.
    pub fn vertex_dot(&self, vertex_id: &str) -> (r: (String, String))
        ensures
            r.0@ == graph_markup(neighborhood_of(self@, vertex_id@)),
            r.1@ == link_list(neighborhood_of(self@, vertex_id@)),
    {
        let edges = self.neighborhood(vertex_id);
        render_neighborhood(&edges)
    }
}

} // verus!
