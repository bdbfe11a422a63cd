//! Users and document references as read from a vertex's outgoing edges.

use vstd::prelude::*;
use crate::store::{source_and_prefix, destination_is, EdgeTable};
use crate::domain::{encode_vertex, 
    decode_vertex, destination_kind, user_payload, clone_opt, DocumentReference, Edge, User,
    UserData, Vertex, VertexKind, VertexData,
};

verus! {

/// The view of an optional string.
pub open spec fn opt_view(o: Option<String>) -> Option<Seq<char>> {
    match o {
        Some(s) => Some(s@),
        None => None,
    }
}

/// The identifier of the last destination of kind `k`.
pub open spec fn last_identifier(edges: Seq<Edge>, k: VertexKind) -> Option<Seq<char>>
    decreases edges.len(),
{
    if edges.len() == 0 {
        None
    } else if destination_kind(edges.last()) == Some(k) {
        Some(decode_vertex(edges.last().vertex_b@)->Ok_0.1)
    } else {
        last_identifier(edges.drop_last(), k)
    }
}

/// The profile of the last edge to a user vertex that carries one.
pub open spec fn last_profile(edges: Seq<Edge>) -> Option<UserData>
    decreases edges.len(),
{
    if edges.len() == 0 {
        None
    } else if destination_kind(edges.last()) == Some(VertexKind::User) && user_payload(
        edges.last(),
    ) is Some {
        user_payload(edges.last())
    } else {
        last_profile(edges.drop_last())
    }
}

/// A profile field, absent without a profile.
pub open spec fn profile_field(p: Option<UserData>, f: spec_fn(UserData) -> Option<String>) -> Option<String> {
    match p {
        Some(d) => f(d),
        None => None,
    }
}

/// What a user read from `edges` (its edges of the user namespace) holds:
/// nothing without edges; else the last profile and the last personal
/// number, email and phone linked.
pub open spec fn user_matches(user_id: String, edges: Seq<Edge>, r: Option<User>) -> bool {
    if edges.len() == 0 {
        r is None
    } else {
        &&& r is Some
        &&& r->Some_0.user_id == user_id
        &&& r->Some_0.name == profile_field(last_profile(edges), |d: UserData| d.name)
        &&& r->Some_0.given_name == profile_field(last_profile(edges), |d: UserData| d.given_name)
        &&& r->Some_0.surname == profile_field(last_profile(edges), |d: UserData| d.surname)
        &&& opt_view(r->Some_0.personal_number) == last_identifier(edges, VertexKind::PersonalNumber)
        &&& opt_view(r->Some_0.email) == last_identifier(edges, VertexKind::Email)
        &&& opt_view(r->Some_0.phone) == last_identifier(edges, VertexKind::Phone)
    }
}

/// Assembles the user `user_id` from its edges of the user namespace.
pub fn user_from_edges(user_id: &String, edges: &Vec<Edge>) -> (r: Option<User>)
    ensures
        user_matches(*user_id, edges@, r),
{
    if edges.len() == 0 {
        return None;
    }
    let mut profile: Option<UserData> = None;
    let mut personal_number: Option<String> = None;
    let mut email: Option<String> = None;
    let mut phone: Option<String> = None;
    let mut i: usize = 0;
    while i < edges.len()
        invariant
            i <= edges@.len(),
            profile == last_profile(edges@.take(i as int)),
            opt_view(personal_number) == last_identifier(edges@.take(i as int), VertexKind::PersonalNumber),
            opt_view(email) == last_identifier(edges@.take(i as int), VertexKind::Email),
            opt_view(phone) == last_identifier(edges@.take(i as int), VertexKind::Phone),
        decreases edges@.len() - i,
    {
        assert(edges@.take(i + 1).drop_last() =~= edges@.take(i as int));
        let e = &edges[i];
        match Vertex::from_str(e.vertex_b.as_str()) {
            Ok(v) => {
                match v.kind() {
                    VertexKind::Email => {
                        email = Some(v.id().clone());
                    },
                    VertexKind::PersonalNumber => {
                        personal_number = Some(v.id().clone());
                    },
                    VertexKind::Phone => {
                        phone = Some(v.id().clone());
                    },
                    VertexKind::User => {
                        if let Some(VertexData::UserData(d)) = &e.data {
                            profile = Some(d.clone());
                        }
                    },
                    _ => {},
                }
            },
            Err(_) => {},
        }
        i = i + 1;
    }
    assert(edges@.take(i as int) =~= edges@);
    let (name, given_name, surname) = match &profile {
        Some(d) => (clone_opt(&d.name), clone_opt(&d.given_name), clone_opt(&d.surname)),
        None => (None, None, None),
    };
    Some(
        User {
            user_id: user_id.clone(),
            name,
            given_name,
            surname,
            personal_number,
            email,
            phone,
        },
    )
}

/// The documents that a user's access edges point at.
pub fn document_references(edges: &Vec<Edge>) -> (r: Vec<DocumentReference>)
    ensures
        r@.len() == edges@.len(),
        forall|i: int| 0 <= i < edges@.len() ==> (#[trigger] r@[i]).doc_id == edges@[i].vertex_b,
{
    let mut r: Vec<DocumentReference> = Vec::new();
    let mut i: usize = 0;
    while i < edges.len()
        invariant
            i <= edges@.len(),
            r@.len() == i,
            forall|j: int| 0 <= j < i ==> (#[trigger] r@[j]).doc_id == edges@[j].vertex_b,
        decreases edges@.len() - i,
    {
        r.push(DocumentReference { doc_id: edges[i].vertex_b.clone() });
        i = i + 1;
    }
    r
}

/// Keeps the users that were found, in order.
pub fn found_users(found: Vec<Option<User>>) -> (r: Vec<User>)
    ensures
        r@ == found@.filter(|o: Option<User>| o is Some).map_values(|o: Option<User>| o->Some_0),
{
    let mut r: Vec<User> = Vec::new();
    let mut i: usize = 0;
    while i < found.len()
        invariant
            i <= found@.len(),
            r@ == found@.take(i as int).filter(|o: Option<User>| o is Some).map_values(
                |o: Option<User>| o->Some_0,
            ),
        decreases found@.len() - i,
    {
        proof {
            assert(found@.take(i + 1).drop_last() =~= found@.take(i as int));
            reveal(Seq::filter);
        }
        if let Some(u) = &found[i] {
            r.push(u.clone());
            assert(r@ =~= found@.take(i + 1).filter(|o: Option<User>| o is Some).map_values(
                |o: Option<User>| o->Some_0,
            ));
        }
        i = i + 1;
    }
    assert(found@.take(i as int) =~= found@);
    r
}

/// A user's edges of the user namespace in the table `t`.
pub open spec fn user_edges_in(t: Seq<Edge>, user_id: Seq<char>) -> Seq<Edge> {
    t.filter(source_and_prefix(user_id, "usr_"@))
}

/// The edges in `t` that link a user to the personal number `pno`.
pub open spec fn personal_number_links(t: Seq<Edge>, pno: Seq<char>) -> Seq<Edge> {
    t.filter(destination_is(encode_vertex(VertexKind::PersonalNumber, pno)))
}

/// Links whose source has user edges in `t`.
pub open spec fn source_has_user_edges(t: Seq<Edge>) -> spec_fn(Edge) -> bool {
    |e: Edge| user_edges_in(t, e.vertex_a@).len() > 0
}

/// The users found for the personal number `pno` in `t`: one per link to
/// it whose source resolves, in the order of the links.
pub open spec fn users_found_for(t: Seq<Edge>, pno: Seq<char>, r: Seq<User>) -> bool {
    let found = personal_number_links(t, pno).filter(source_has_user_edges(t));
    &&& r.len() == found.len()
    &&& forall|k: int| 0 <= k < r.len() ==> user_matches(
        found[k].vertex_a,
        user_edges_in(t, found[k].vertex_a@),
        Some(#[trigger] r[k]),
    )
}

impl EdgeTable {
    /// The documents that `user_id` owns or may read.
    pub fn get_user_documents(&self, user_id: &str) -> (r: Vec<DocumentReference>)
        ensures
            r@.len() == self@.filter(source_and_prefix(user_id@, "doc_acl_"@)).len(),
            forall|i: int| 0 <= i < r@.len() ==> (#[trigger] r@[i]).doc_id == self@.filter(
                source_and_prefix(user_id@, "doc_acl_"@),
            )[i].vertex_b,
    {
        let edges = self.edges_from_with_prefix(user_id, "doc_acl_");
        document_references(&edges)
    }

    /// The user `user_id`, from its edges of the user namespace.
    pub fn get_user(&self, user_id: &String) -> (r: Option<User>)
        ensures
            user_matches(*user_id, user_edges_in(self@, user_id@), r),
    {
        let edges = self.edges_from_with_prefix(user_id.as_str(), "usr_");
        user_from_edges(user_id, &edges)
    }

    /// The users linked to the personal number `personal_number`.
    pub fn get_users_by_personal_number(&self, personal_number: &str) -> (r: Vec<User>)
        ensures
            users_found_for(self@, personal_number@, r@),
    {
        let target = Vertex::new(VertexKind::PersonalNumber, String::from_str(personal_number)).to_string();
        let links = self.edges_to(target.as_str());
        let ghost t = self@;
        let mut r: Vec<User> = Vec::new();
        let mut i: usize = 0;
        while i < links.len()
            invariant
                t == self@,
                links@ == personal_number_links(t, personal_number@),
                i <= links@.len(),
                users_found_for_prefix(t, links@.take(i as int), r@),
            decreases links@.len() - i,
        {
            proof {
                assert(links@.take(i + 1).drop_last() =~= links@.take(i as int));
                reveal(Seq::filter);
            }
            let found = self.get_user(&links[i].vertex_a);
            if let Some(u) = found {
                r.push(u);
            }
            i = i + 1;
        }
        assert(links@.take(i as int) =~= links@);
        r
    }
}

/// `users_found_for` over a given list of links.
pub open spec fn users_found_for_prefix(t: Seq<Edge>, links: Seq<Edge>, r: Seq<User>) -> bool {
    let found = links.filter(source_has_user_edges(t));
    &&& r.len() == found.len()
    &&& forall|k: int| 0 <= k < r.len() ==> user_matches(
        found[k].vertex_a,
        user_edges_in(t, found[k].vertex_a@),
        Some(#[trigger] r[k]),
    )
}

/// Where only position `j` links to a vertex of kind `k`, the last
/// identifier of that kind is the one at `j`.
pub proof fn lemma_last_identifier_only(s: Seq<Edge>, k: VertexKind, j: int)
    requires
        0 <= j < s.len(),
        destination_kind(s[j]) == Some(k),
        forall|i: int| 0 <= i < s.len() && i != j ==> destination_kind(s[i]) != Some(k),
    ensures
        last_identifier(s, k) == Some(decode_vertex(s[j].vertex_b@)->Ok_0.1),
    decreases s.len(),
{
    if j < s.len() - 1 {
        lemma_last_identifier_only(s.drop_last(), k, j);
    }
}

} // verus!
