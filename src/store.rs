//! Edge records and the graph store's semantics: upsert by `(source, edge
//! key)`, queries by source (optionally by edge-key prefix) and by
//! destination, and the merged neighbourhood of a vertex.

use vstd::prelude::*;
use vstd::string::*;
use crate::domain::{
    Edge, EdgeType, FormatError, Vertex, VertexData, decode_edge_type, edge_tag, encode_vertex,
    lemma_edge_tag,
};
use crate::text::{before_first, is_first_index, lemma_first_index_after, lemma_first_index_unique};
use crate::text::{has_prefix, str_eq};

verus! {

broadcast use vstd::seq_lib::group_filter_ensures;

/// The composite key of an edge: `<tag>|<source>|<destination>`.
pub open spec fn edge_key(t: EdgeType, a: Seq<char>, b: Seq<char>) -> Seq<char> {
    edge_tag(t) + seq!['|'] + a + seq!['|'] + b
}

/// The edge of type `edge_type` from `vertex_a` to `vertex_b`, with its key.
pub fn new_edge(vertex_a: &Vertex, edge_type: &EdgeType, vertex_b: &Vertex, data: Option<VertexData>) -> (r: Edge)
    ensures
        r.vertex_a@ == encode_vertex(vertex_a@.0, vertex_a@.1),
        r.vertex_b@ == encode_vertex(vertex_b@.0, vertex_b@.1),
        r.edge@ == edge_key(*edge_type, r.vertex_a@, r.vertex_b@),
        r.data == data,
{
    let a = vertex_a.to_string();
    let b = vertex_b.to_string();
    let mut key = String::from_str(edge_type.tag());
    key.append("|");
    key.append(a.as_str());
    key.append("|");
    key.append(b.as_str());
    proof {
        reveal_strlit("|");
    }
    Edge { vertex_a: a, vertex_b: b, edge: key, data }
}

/// Two records share the primary key `(source, edge key)`.
pub open spec fn same_key(x: Edge, y: Edge) -> bool {
    x.vertex_a@ == y.vertex_a@ && x.edge@ == y.edge@
}

/// At most one record per primary key.
pub open spec fn keys_unique(s: Seq<Edge>) -> bool {
    forall|i: int, j: int| 0 <= i < s.len() && 0 <= j < s.len() && i != j ==> !same_key(s[i], s[j])
}

/// Writing `e` over `s`: it replaces the record with its key, or is added.
pub open spec fn upsert(s: Seq<Edge>, e: Edge) -> Seq<Edge> {
    if exists|i: int| 0 <= i < s.len() && same_key(s[i], e) {
        s.update(choose|i: int| 0 <= i < s.len() && same_key(s[i], e), e)
    } else {
        s.push(e)
    }
}

/// Writing each of `es` over `s`, in order.
pub open spec fn upsert_all(s: Seq<Edge>, es: Seq<Edge>) -> Seq<Edge>
    decreases es.len(),
{
    if es.len() == 0 {
        s
    } else {
        upsert(upsert_all(s, es.drop_last()), es.last())
    }
}

/// Records whose source is `v`.
pub open spec fn source_is(v: Seq<char>) -> spec_fn(Edge) -> bool {
    |e: Edge| e.vertex_a@ == v
}

/// Records whose source is `v` and whose edge key starts with `prefix`.
pub open spec fn source_and_prefix(v: Seq<char>, prefix: Seq<char>) -> spec_fn(Edge) -> bool {
    |e: Edge| e.vertex_a@ == v && prefix.is_prefix_of(e.edge@)
}

/// Records whose destination is `v`.
pub open spec fn destination_is(v: Seq<char>) -> spec_fn(Edge) -> bool {
    |e: Edge| e.vertex_b@ == v
}

/// The neighbourhood of `v`: the records that end at `v`, then those that
/// start at it. A self-loop is in both halves.
pub open spec fn neighborhood_of(s: Seq<Edge>, v: Seq<char>) -> Seq<Edge> {
    s.filter(destination_is(v)) + s.filter(source_is(v))
}

/// The merged neighbourhood from the two halves of the query: the records
/// found by destination, then those found by source.
pub fn merge_neighborhood(by_destination: Vec<Edge>, by_source: Vec<Edge>) -> (r: Vec<Edge>)
    ensures
        r@ == by_destination@ + by_source@,
{
    let mut r = by_destination;
    let mut rest = by_source;
    r.append(&mut rest);
    r
}

/// An edge table held in memory, with the store's upsert and query semantics.
pub struct EdgeTable {
    records: Vec<Edge>,
}

impl View for EdgeTable {
    type V = Seq<Edge>;

    closed spec fn view(&self) -> Seq<Edge> {
        self.records@
    }
}

impl EdgeTable {
    /// The table's invariant: one record per primary key.
    pub open spec fn wf(&self) -> bool {
        keys_unique(self@)
    }

    /// An empty table.
    pub fn new() -> (r: EdgeTable)
        ensures
            r.wf(),
            r@ == Seq::<Edge>::empty(),
    {
        EdgeTable { records: Vec::new() }
    }

    /// The records in the order they were first written.
    pub fn records(&self) -> (r: &Vec<Edge>)
        ensures
            r@ == self@,
    {
        &self.records
    }

    /// Writes `edge`, replacing any record with the same `(source, edge key)`.
    pub fn put_edge(&mut self, edge: Edge)
        requires
            old(self).wf(),
        ensures
            final(self).wf(),
            final(self)@ == upsert(old(self)@, edge),
    {
        let n = self.records.len();
        let mut i: usize = 0;
        while i < n
            invariant
                n == self.records@.len(),
                i <= n,
                self.records@ == old(self)@,
                keys_unique(self.records@),
                forall|j: int| 0 <= j < i ==> !same_key(self.records@[j], edge),
            decreases n - i,
        {
            if self.records[i].vertex_a == edge.vertex_a && self.records[i].edge == edge.edge {
                proof {
                    assert(same_key(old(self)@[i as int], edge));
                    let k = choose|k: int| 0 <= k < n && same_key(old(self)@[k], edge);
                    if k != i {
                        assert(!same_key(old(self)@[k], old(self)@[i as int]));
                    }
                }
                self.records.set(i, edge);
                assert forall|a: int, b: int|
                    0 <= a < n && 0 <= b < n && a != b implies !same_key(
                        self.records@[a],
                        self.records@[b],
                    ) by {
                    assert(!same_key(old(self)@[a], old(self)@[b]));
                    if a == i {
                        assert(!same_key(old(self)@[b], old(self)@[i as int]));
                    }
                    if b == i {
                        assert(!same_key(old(self)@[a], old(self)@[i as int]));
                    }
                }
                return;
            }
            i = i + 1;
        }
        self.records.push(edge);
    }

    /// Writes each of `edges`, in order.
    pub fn put_edges(&mut self, edges: Vec<Edge>)
        requires
            old(self).wf(),
        ensures
            final(self).wf(),
            final(self)@ == upsert_all(old(self)@, edges@),
    {
        let mut i: usize = 0;
        while i < edges.len()
            invariant
                i <= edges@.len(),
                self.wf(),
                self@ == upsert_all(old(self)@, edges@.take(i as int)),
            decreases edges@.len() - i,
        {
            assert(edges@.take(i + 1).drop_last() =~= edges@.take(i as int));
            self.put_edge(edges[i].clone());
            i = i + 1;
        }
        assert(edges@.take(i as int) =~= edges@);
    }

    /// The records whose source is `vertex`.
    pub fn edges_from(&self, vertex: &str) -> (r: Vec<Edge>)
        ensures
            r@ == self@.filter(source_is(vertex@)),
    {
        let mut r: Vec<Edge> = Vec::new();
        let mut i: usize = 0;
        while i < self.records.len()
            invariant
                i <= self.records@.len(),
                r@ == self@.take(i as int).filter(source_is(vertex@)),
            decreases self.records@.len() - i,
        {
            proof {
                assert(self@.take(i + 1).drop_last() =~= self@.take(i as int));
                reveal(Seq::filter);
            }
            if str_eq(self.records[i].vertex_a.as_str(), vertex) {
                r.push(self.records[i].clone());
            }
            i = i + 1;
        }
        assert(self@.take(i as int) =~= self@);
        r
    }

    /// The records whose source is `vertex` and whose edge key starts with
    /// `prefix`: the vertex's edges of one namespace.
    pub fn edges_from_with_prefix(&self, vertex: &str, prefix: &str) -> (r: Vec<Edge>)
        ensures
            r@ == self@.filter(source_and_prefix(vertex@, prefix@)),
    {
        let mut r: Vec<Edge> = Vec::new();
        let mut i: usize = 0;
        while i < self.records.len()
            invariant
                i <= self.records@.len(),
                r@ == self@.take(i as int).filter(source_and_prefix(vertex@, prefix@)),
            decreases self.records@.len() - i,
        {
            proof {
                assert(self@.take(i + 1).drop_last() =~= self@.take(i as int));
                reveal(Seq::filter);
            }
            if str_eq(self.records[i].vertex_a.as_str(), vertex) && has_prefix(
                self.records[i].edge.as_str(),
                prefix,
            ) {
                r.push(self.records[i].clone());
            }
            i = i + 1;
        }
        assert(self@.take(i as int) =~= self@);
        r
    }

    /// The records whose destination is `vertex`, as the secondary index
    /// finds them.
    pub fn edges_to(&self, vertex: &str) -> (r: Vec<Edge>)
        ensures
            r@ == self@.filter(destination_is(vertex@)),
    {
        let mut r: Vec<Edge> = Vec::new();
        let mut i: usize = 0;
        while i < self.records.len()
            invariant
                i <= self.records@.len(),
                r@ == self@.take(i as int).filter(destination_is(vertex@)),
            decreases self.records@.len() - i,
        {
            proof {
                assert(self@.take(i + 1).drop_last() =~= self@.take(i as int));
                reveal(Seq::filter);
            }
            if str_eq(self.records[i].vertex_b.as_str(), vertex) {
                r.push(self.records[i].clone());
            }
            i = i + 1;
        }
        assert(self@.take(i as int) =~= self@);
        r
    }

    /// Every record incident to `vertex`: those ending at it, then those
    /// starting at it, without deduplication.
    pub fn neighborhood(&self, vertex: &str) -> (r: Vec<Edge>)
        ensures
            r@ == neighborhood_of(self@, vertex@),
    {
        let by_destination = self.edges_to(vertex);
        let by_source = self.edges_from(vertex);
        merge_neighborhood(by_destination, by_source)
    }
}

/// Writing two edges with the same `(source, edge key)` leaves exactly one
/// record with that key, and it is the second edge.
pub proof fn lemma_upsert_same_key(s: Seq<Edge>, e1: Edge, e2: Edge)
    requires
        keys_unique(s),
        same_key(e1, e2),
    ensures
        ({
            let t = upsert(upsert(s, e1), e2);
            exists|j: int|
                0 <= j < t.len() && t[j] == e2 && forall|i: int|
                    0 <= i < t.len() && same_key(#[trigger] t[i], e2) ==> i == j
        }),
{
    let s1 = upsert(s, e1);
    let j: int = if exists|i: int| 0 <= i < s.len() && same_key(s[i], e1) {
        choose|i: int| 0 <= i < s.len() && same_key(s[i], e1)
    } else {
        s.len() as int
    };
    assert(s1[j] == e1);
    assert(forall|i: int| 0 <= i < s1.len() && i != j ==> !same_key(#[trigger] s1[i], e1)) by {
        assert forall|i: int| 0 <= i < s1.len() && i != j implies !same_key(#[trigger] s1[i], e1) by {
            if j < s.len() {
                assert(!same_key(s[i], s[j]));
            }
        }
    }
    assert(same_key(s1[j], e2));
    let t = upsert(s1, e2);
    let k = choose|k: int| 0 <= k < s1.len() && same_key(s1[k], e2);
    assert(k == j);
    assert(t[j] == e2);
}

/// The neighbourhood of `a` holds every record that ends at `a` and every
/// record that starts at it; a self-loop on `a` is found twice.
pub proof fn lemma_neighborhood_complete(s: Seq<Edge>, a: Seq<char>, i: int)
    requires
        0 <= i < s.len(),
        s[i].vertex_a@ == a || s[i].vertex_b@ == a,
    ensures
        neighborhood_of(s, a).contains(s[i]),
        s[i].vertex_a@ == a && s[i].vertex_b@ == a ==> (exists|p: int, q: int|
            0 <= p < q < neighborhood_of(s, a).len() && neighborhood_of(s, a)[p] == s[i]
                && neighborhood_of(s, a)[q] == s[i]),
{
    let d = s.filter(destination_is(a));
    let f = s.filter(source_is(a));
    let n = neighborhood_of(s, a);
    if s[i].vertex_b@ == a {
        assert(d.contains(s[i]));
        let p = choose|p: int| 0 <= p < d.len() && d[p] == s[i];
        assert(n[p] == s[i]);
    } else {
        assert(f.contains(s[i]));
        let q = choose|q: int| 0 <= q < f.len() && f[q] == s[i];
        assert(n[d.len() + q] == s[i]);
    }
    if s[i].vertex_a@ == a && s[i].vertex_b@ == a {
        assert(d.contains(s[i]));
        assert(f.contains(s[i]));
        let p = choose|p: int| 0 <= p < d.len() && d[p] == s[i];
        let q = choose|q: int| 0 <= q < f.len() && f[q] == s[i];
        assert(n[p] == s[i]);
        assert(n[d.len() + q] == s[i]);
    }
}

/// The type of an edge key is the type it was made with.
pub proof fn lemma_edge_key_type(t: EdgeType, a: Seq<char>, b: Seq<char>)
    ensures
        decode_edge_type(edge_key(t, a, b)) == Ok::<EdgeType, FormatError>(t),
        before_first(edge_key(t, a, b), '|') == edge_tag(t),
{
    lemma_edge_tag(t);
    let rest = a + seq!['|'] + b;
    let k = edge_key(t, a, b);
    assert(k =~= edge_tag(t) + seq!['|'] + rest);
    lemma_first_index_after(edge_tag(t), '|', rest);
    let i = choose|i: int| is_first_index(k, '|', i);
    lemma_first_index_unique(k, '|', i, edge_tag(t).len() as int);
}

/// Edge keys of different types differ.
pub proof fn lemma_edge_keys_differ(t1: EdgeType, a1: Seq<char>, b1: Seq<char>, t2: EdgeType, a2: Seq<char>, b2: Seq<char>)
    requires
        t1 != t2,
    ensures
        edge_key(t1, a1, b1) != edge_key(t2, a2, b2),
{
    lemma_edge_key_type(t1, a1, b1);
    lemma_edge_key_type(t2, a2, b2);
}

/// Writing records with distinct keys into an empty table keeps them all, in order.
pub proof fn lemma_upsert_all_fresh(es: Seq<Edge>)
    requires
        keys_unique(es),
    ensures
        upsert_all(Seq::empty(), es) == es,
    decreases es.len(),
{
    if es.len() > 0 {
        let d = es.drop_last();
        assert(keys_unique(d)) by {
            assert forall|i: int, j: int| 0 <= i < d.len() && 0 <= j < d.len() && i != j implies !same_key(d[i], d[j]) by {
                assert(!same_key(es[i], es[j]));
            }
        }
        lemma_upsert_all_fresh(d);
        assert forall|i: int| 0 <= i < d.len() implies !same_key(d[i], es.last()) by {
            assert(!same_key(es[i], es[es.len() - 1]));
        }
        assert(d.push(es.last()) =~= es);
    }
}

/// Filtering keeps a sequence whose every element passes.
pub proof fn lemma_filter_all<A>(s: Seq<A>, p: spec_fn(A) -> bool)
    requires
        forall|i: int| 0 <= i < s.len() ==> p(s[i]),
    ensures
        s.filter(p) == s,
    decreases s.len(),
{
    reveal(Seq::filter);
    if s.len() > 0 {
        lemma_filter_all(s.drop_last(), p);
        assert(s.drop_last().push(s.last()) =~= s);
    }
}

/// Filtering a sequence in which no element passes leaves nothing.
pub proof fn lemma_filter_none<A>(s: Seq<A>, p: spec_fn(A) -> bool)
    requires
        forall|i: int| 0 <= i < s.len() ==> !p(s[i]),
    ensures
        s.filter(p) == Seq::<A>::empty(),
    decreases s.len(),
{
    reveal(Seq::filter);
    if s.len() > 0 {
        lemma_filter_none(s.drop_last(), p);
    }
}

/// Filtering a sequence in which only position `j` passes leaves that element.
pub proof fn lemma_filter_only<A>(s: Seq<A>, p: spec_fn(A) -> bool, j: int)
    requires
        0 <= j < s.len(),
        p(s[j]),
        forall|i: int| 0 <= i < s.len() && i != j ==> !p(s[i]),
    ensures
        s.filter(p) == seq![s[j]],
    decreases s.len(),
{
    reveal(Seq::filter);
    let d = s.drop_last();
    if j == s.len() - 1 {
        lemma_filter_none(d, p);
        assert(Seq::<A>::empty().push(s[j]) =~= seq![s[j]]);
    } else {
        lemma_filter_only(d, p, j);
    }
}

} // verus!
