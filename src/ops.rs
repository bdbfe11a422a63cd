//! The edges that each domain operation writes: creating a user, opening,
//! authenticating and closing a session, and registering a document. Every
//! operation is a list of edges to upsert; state changes are new edges.

use vstd::prelude::*;
use vstd::string::*;
use crate::domain::{
    clone_opt, decode_vertex, destination_kind, lemma_user_tag_prefix, lemma_vertex_round_trip, encode_vertex, lemma_decode_encode, session_payload, user_payload,
    edge_tag, Edge, EdgeType, FormatError, S3Document, Session, SessionData, User, UserData, Vertex,
    VertexData, VertexKind,
};
use crate::store::{
    edge_key, keys_unique, lemma_edge_keys_differ, lemma_filter_all, lemma_filter_only,
    lemma_upsert_all_fresh, new_edge, same_key, source_and_prefix, destination_is, upsert_all,
};
use crate::users::{
    lemma_last_identifier_only, opt_view, personal_number_links,
    source_has_user_edges, user_edges_in, user_matches, users_found_for,
};

verus! {

/// Relies on `uuid::Uuid::new_v4` for a fresh random identifier, in its
/// hyphenated text form.
#[verifier::external_body]
fn fresh_id() -> (r: String) {
    uuid::Uuid::new_v4().to_hyphenated().to_string()
}

/// Relies on `chrono::Utc::now` for the current time, as RFC 3339 text.
#[verifier::external_body]
fn now_rfc3339() -> (r: String) {
    chrono::Utc::now().to_rfc3339()
}

/// `e` is an edge of type `t` from the vertex string `a` to `b`.
pub open spec fn edge_between(e: Edge, t: EdgeType, a: Seq<char>, b: Seq<char>) -> bool {
    &&& e.vertex_a@ == a
    &&& e.vertex_b@ == b
    &&& e.edge@ == edge_key(t, a, b)
}

/// The view of an optional string slice.
pub open spec fn opt_str_view(o: Option<&str>) -> Option<Seq<char>> {
    match o {
        Some(s) => Some(s@),
        None => None,
    }
}

/// The edges that create the user `User-<uuid>`: its self edge with the
/// profile, its personal-number edge, and an email and a phone edge when
/// given, in that order.
pub open spec fn is_new_user(
    uuid: Seq<char>,
    personal_number: Seq<char>,
    name: Seq<char>,
    given_name: Seq<char>,
    surname: Seq<char>,
    email: Option<Seq<char>>,
    phone: Option<Seq<char>>,
    user_id: Seq<char>,
    edges: Seq<Edge>,
) -> bool {
    let u = encode_vertex(VertexKind::User, uuid);
    let n_email: int = if email is Some { 1 } else { 0 };
    let n_phone: int = if phone is Some { 1 } else { 0 };
    &&& user_id == u
    &&& edges.len() == 2 + n_email + n_phone
    &&& edge_between(edges[0], EdgeType::UserSelf, u, u)
    &&& user_payload(edges[0]) is Some
    &&& opt_view(user_payload(edges[0])->Some_0.name) == Some(name)
    &&& opt_view(user_payload(edges[0])->Some_0.given_name) == Some(given_name)
    &&& opt_view(user_payload(edges[0])->Some_0.surname) == Some(surname)
    &&& edge_between(edges[1], EdgeType::UserPersonalNumber, u, encode_vertex(VertexKind::PersonalNumber, personal_number))
    &&& edges[1].data is None
    &&& (email is Some ==> edge_between(edges[2], EdgeType::UserEmail, u, encode_vertex(VertexKind::Email, email->Some_0))
        && edges[2].data is None)
    &&& (phone is Some ==> edge_between(edges[2 + n_email], EdgeType::UserPhone, u, encode_vertex(VertexKind::Phone, phone->Some_0))
        && edges[2 + n_email].data is None)
}

/// The user string and the edges that create the user `User-<uuid>`.
pub fn user_edges(
    uuid: &str,
    personal_number: &str,
    name: &str,
    given_name: &str,
    surname: &str,
    email: Option<&str>,
    phone: Option<&str>,
) -> (r: (String, Vec<Edge>))
    ensures
        is_new_user(uuid@, personal_number@, name@, given_name@, surname@, opt_str_view(email), opt_str_view(phone), r.0@, r.1@),
{
    let user = Vertex::new(VertexKind::User, String::from_str(uuid));
    let pno = Vertex::new(VertexKind::PersonalNumber, String::from_str(personal_number));
    let profile = UserData {
        name: Some(String::from_str(name)),
        given_name: Some(String::from_str(given_name)),
        surname: Some(String::from_str(surname)),
    };
    let mut edges: Vec<Edge> = Vec::new();
    edges.push(new_edge(&user, &EdgeType::UserSelf, &user, Some(VertexData::UserData(profile))));
    edges.push(new_edge(&user, &EdgeType::UserPersonalNumber, &pno, None));
    if let Some(m) = email {
        let v = Vertex::new(VertexKind::Email, String::from_str(m));
        edges.push(new_edge(&user, &EdgeType::UserEmail, &v, None));
    }
    if let Some(p) = phone {
        let v = Vertex::new(VertexKind::Phone, String::from_str(p));
        edges.push(new_edge(&user, &EdgeType::UserPhone, &v, None));
    }
    (user.to_string(), edges)
}

/// Creates a user under a fresh identifier: the user string and the edges to
/// write.
pub fn new_user(
    personal_number: &str,
    name: &str,
    given_name: &str,
    surname: &str,
    email: Option<&str>,
    phone: Option<&str>,
) -> (r: (String, Vec<Edge>))
    ensures
        exists|uuid: Seq<char>|
            is_new_user(uuid, personal_number@, name@, given_name@, surname@, opt_str_view(email), opt_str_view(phone), r.0@, r.1@),
{
    let uuid = fresh_id();
    user_edges(uuid.as_str(), personal_number, name, given_name, surname, email, phone)
}

/// Why a session cannot be authenticated.
#[derive(Clone, Copy, Debug, PartialEq, Eq, Structural)]
pub enum SessionError {
    /// A session or user string does not decode.
    InvalidFormat(FormatError),
    /// The user does not resolve to any edges.
    InvalidUserId,
    /// The session does not resolve to any session.
    InvalidSessionId,
}

/// The session `Session-<uuid>` opened at `now`, and its self edge.
pub open spec fn is_new_session(uuid: Seq<char>, now: Seq<char>, s: Session, e: Edge) -> bool {
    let v = encode_vertex(VertexKind::Session, uuid);
    &&& s.session_id@ == v
    &&& opt_view(s.created) == Some(now)
    &&& s.session_login_id is None
    &&& s.login is None
    &&& s.logout is None
    &&& s.auth_data is None
    &&& s.user is None
    &&& edge_between(e, EdgeType::SessionSelf, v, v)
    &&& session_payload(e) == Some(
        SessionData {
            created: s.created,
            session_login_id: None,
            login: None,
            logout: None,
            auth_data: None,
        },
    )
}

/// The session `Session-<uuid>` created at `now`, and the self edge to write.
pub fn session_start(uuid: &str, now: &str) -> (r: (Session, Edge))
    ensures
        is_new_session(uuid@, now@, r.0, r.1),
{
    let v = Vertex::new(VertexKind::Session, String::from_str(uuid));
    let created = Some(String::from_str(now));
    let data = SessionData {
        created: clone_opt(&created),
        session_login_id: None,
        login: None,
        logout: None,
        auth_data: None,
    };
    let e = new_edge(&v, &EdgeType::SessionSelf, &v, Some(VertexData::SessionData(data)));
    let s = Session {
        session_id: v.to_string(),
        created,
        session_login_id: None,
        login: None,
        logout: None,
        auth_data: None,
        user: None,
    };
    (s, e)
}

/// Opens a new session under a fresh identifier at the current time.
pub fn session_new() -> (r: (Session, Edge))
    ensures
        exists|uuid: Seq<char>, now: Seq<char>| is_new_session(uuid, now, r.0, r.1),
{
    let uuid = fresh_id();
    let now = now_rfc3339();
    session_start(uuid.as_str(), now.as_str())
}

/// What authenticating `session_id` as `user_id` yields. `user` is the user
/// as looked up, `sessions` the session's resolved sessions, `login_uuid`
/// names the new login vertex, `now` is the time of the login.
pub open spec fn session_auth_result(
    session_id: Seq<char>,
    user_id: Seq<char>,
    user: Option<User>,
    sessions: Seq<Session>,
    login_uuid: Seq<char>,
    now: Seq<char>,
    auth_data: Seq<char>,
    r: Result<(Vec<Edge>, Session), SessionError>,
) -> bool {
    if decode_vertex(session_id) is Err {
        r == Err::<(Vec<Edge>, Session), SessionError>(SessionError::InvalidFormat(decode_vertex(session_id)->Err_0))
    } else if user is None {
        r == Err::<(Vec<Edge>, Session), SessionError>(SessionError::InvalidUserId)
    } else if decode_vertex(user_id) is Err {
        r == Err::<(Vec<Edge>, Session), SessionError>(SessionError::InvalidFormat(decode_vertex(user_id)->Err_0))
    } else if sessions.len() == 0 {
        r == Err::<(Vec<Edge>, Session), SessionError>(SessionError::InvalidSessionId)
    } else {
        let login = encode_vertex(VertexKind::SessionLogin, login_uuid);
        let first = sessions[0];
        &&& r is Ok
        &&& ({
            let edges = r->Ok_0.0@;
            let s = r->Ok_0.1;
            &&& edges.len() == 2
            &&& edge_between(edges[0], EdgeType::SessionUser, session_id, user_id)
            &&& edges[0].data is None
            &&& edge_between(edges[1], EdgeType::SessionLogin, session_id, login)
            &&& session_payload(edges[1]) == Some(
                SessionData {
                    created: first.created,
                    session_login_id: s.session_login_id,
                    login: s.login,
                    logout: first.logout,
                    auth_data: s.auth_data,
                },
            )
            &&& opt_view(s.session_login_id) == Some(login)
            &&& opt_view(s.login) == Some(now)
            &&& opt_view(s.auth_data) == Some(auth_data)
            &&& s.session_id == first.session_id
            &&& s.created == first.created
            &&& s.logout == first.logout
            &&& s.user == user
        })
    }
}

/// Authenticates a session: links it to the user and records a login on a
/// fresh login vertex, keeping the creation time of the session's first
/// resolved session.
pub fn session_login(
    session_id: &str,
    user_id: &str,
    user: Option<User>,
    sessions: &Vec<Session>,
    login_uuid: &str,
    now: &str,
    auth_data: &str,
) -> (r: Result<(Vec<Edge>, Session), SessionError>)
    ensures
        session_auth_result(session_id@, user_id@, user, sessions@, login_uuid@, now@, auth_data@, r),
{
    let session_vertex = match Vertex::from_str(session_id) {
        Ok(v) => v,
        Err(e) => {
            return Err(SessionError::InvalidFormat(e));
        },
    };
    let user = match user {
        Some(u) => u,
        None => {
            return Err(SessionError::InvalidUserId);
        },
    };
    let user_vertex = match Vertex::from_str(user_id) {
        Ok(v) => v,
        Err(e) => {
            return Err(SessionError::InvalidFormat(e));
        },
    };
    if sessions.len() == 0 {
        return Err(SessionError::InvalidSessionId);
    }
    proof {
        lemma_decode_encode(session_id@);
        lemma_decode_encode(user_id@);
    }
    let first = &sessions[0];
    let login_vertex = Vertex::new(VertexKind::SessionLogin, String::from_str(login_uuid));
    let login_id = Some(login_vertex.to_string());
    let login = Some(String::from_str(now));
    let auth = Some(String::from_str(auth_data));
    let data = SessionData {
        created: clone_opt(&first.created),
        session_login_id: clone_opt(&login_id),
        login: clone_opt(&login),
        logout: clone_opt(&first.logout),
        auth_data: clone_opt(&auth),
    };
    let mut edges: Vec<Edge> = Vec::new();
    edges.push(new_edge(&session_vertex, &EdgeType::SessionUser, &user_vertex, None));
    edges.push(new_edge(&session_vertex, &EdgeType::SessionLogin, &login_vertex, Some(VertexData::SessionData(data))));
    let s = Session {
        session_id: first.session_id.clone(),
        created: clone_opt(&first.created),
        session_login_id: login_id,
        login,
        logout: clone_opt(&first.logout),
        auth_data: auth,
        user: Some(user),
    };
    Ok((edges, s))
}

/// Authenticates a session under a fresh login vertex at the current time.
pub fn session_auth(
    session_id: &str,
    user_id: &str,
    user: Option<User>,
    sessions: &Vec<Session>,
    auth_data: &str,
) -> (r: Result<(Vec<Edge>, Session), SessionError>)
    ensures
        exists|login_uuid: Seq<char>, now: Seq<char>|
            session_auth_result(session_id@, user_id@, user, sessions@, login_uuid, now, auth_data@, r),
{
    let login_uuid = fresh_id();
    let now = now_rfc3339();
    session_login(session_id, user_id, user, sessions, login_uuid.as_str(), now.as_str(), auth_data)
}

/// A session with a login vertex that decodes: the ones a logout closes.
pub open spec fn has_open_login(s: Session) -> bool {
    s.session_login_id is Some && decode_vertex(s.session_login_id->Some_0@) is Ok
}

/// The logout edge for session `s` of `session_id` at `now`.
pub open spec fn is_logout_edge_for(session_id: Seq<char>, s: Session, now: Seq<char>, e: Edge) -> bool {
    &&& edge_between(e, EdgeType::SessionLogout, session_id, s.session_login_id->Some_0@)
    &&& session_payload(e) is Some
    &&& ({
        let d = session_payload(e)->Some_0;
        &&& d.created == s.created
        &&& d.session_login_id == s.session_login_id
        &&& d.login == s.login
        &&& opt_view(d.logout) == Some(now)
        &&& d.auth_data == s.auth_data
    })
}

/// The sessions that a logout closes.
pub open spec fn closable(sessions: Seq<Session>) -> Seq<Session> {
    sessions.filter(|s: Session| has_open_login(s))
}

/// The edges that log out `sessions` of `session_id` at `now`.
pub open spec fn is_logout(session_id: Seq<char>, sessions: Seq<Session>, now: Seq<char>, edges: Seq<Edge>) -> bool {
    &&& edges.len() == closable(sessions).len()
    &&& forall|k: int| 0 <= k < edges.len() ==> is_logout_edge_for(
        session_id,
        closable(sessions)[k],
        now,
        #[trigger] edges[k],
    )
}

/// The logout edges for a session at `now`: one per resolved session with a
/// login vertex, on that vertex, keeping that login's state.
pub fn session_logout_edges(session_id: &str, sessions: &Vec<Session>, now: &str) -> (r: Result<Vec<Edge>, FormatError>)
    ensures
        decode_vertex(session_id@) is Err ==> r == Err::<Vec<Edge>, FormatError>(decode_vertex(session_id@)->Err_0),
        decode_vertex(session_id@) is Ok ==> r is Ok && is_logout(session_id@, sessions@, now@, r->Ok_0@),
{
    let session_vertex = match Vertex::from_str(session_id) {
        Ok(v) => v,
        Err(e) => {
            return Err(e);
        },
    };
    proof {
        lemma_decode_encode(session_id@);
    }
    let mut edges: Vec<Edge> = Vec::new();
    let mut i: usize = 0;
    while i < sessions.len()
        invariant
            i <= sessions@.len(),
            session_vertex@ == decode_vertex(session_id@)->Ok_0,
            encode_vertex(session_vertex@.0, session_vertex@.1) == session_id@,
            is_logout(session_id@, sessions@.take(i as int), now@, edges@),
        decreases sessions@.len() - i,
    {
        proof {
            assert(sessions@.take(i + 1).drop_last() =~= sessions@.take(i as int));
            reveal(Seq::filter);
        }
        let s = &sessions[i];
        if let Some(login_id) = &s.session_login_id {
            if let Ok(login_vertex) = Vertex::from_str(login_id.as_str()) {
                proof {
                    lemma_decode_encode(login_id@);
                }
                let mut data = s.session_data();
                data.logout = Some(String::from_str(now));
                edges.push(new_edge(&session_vertex, &EdgeType::SessionLogout, &login_vertex, Some(VertexData::SessionData(data))));
            }
        }
        i = i + 1;
    }
    assert(sessions@.take(i as int) =~= sessions@);
    Ok(edges)
}

/// The logout edges for a session at the current time.
pub fn session_logout(session_id: &str, sessions: &Vec<Session>) -> (r: Result<Vec<Edge>, FormatError>)
    ensures
        decode_vertex(session_id@) is Err ==> r == Err::<Vec<Edge>, FormatError>(decode_vertex(session_id@)->Err_0),
        decode_vertex(session_id@) is Ok ==> r is Ok && exists|now: Seq<char>|
            is_logout(session_id@, sessions@, now, r->Ok_0@),
{
    let now = now_rfc3339();
    session_logout_edges(session_id, sessions, now.as_str())
}

/// The payload that marks a document's own edges.
pub open spec fn is_document_marker(d: Option<VertexData>) -> bool {
    &&& d is Some
    &&& d->Some_0 is String
    &&& d->Some_0->String_0@ == "some document data"@
}

fn document_marker() -> (r: Option<VertexData>)
    ensures
        is_document_marker(r),
{
    Some(VertexData::String(String::from_str("some document data")))
}

/// The document `Document-<uuid>` and the edge that makes `user` its owner.
pub fn document_owner_edge(user: &Vertex, doc_uuid: &str) -> (r: (String, Edge))
    ensures
        r.0@ == encode_vertex(VertexKind::Document, doc_uuid@),
        edge_between(r.1, EdgeType::DocumentOwner, encode_vertex(user@.0, user@.1), r.0@),
        is_document_marker(r.1.data),
{
    let doc = Vertex::new(VertexKind::Document, String::from_str(doc_uuid));
    let e = new_edge(user, &EdgeType::DocumentOwner, &doc, document_marker());
    (doc.to_string(), e)
}

/// Registers a new document owned by `user` under a fresh identifier.
pub fn upload_document_url(user: &Vertex) -> (r: (String, Edge))
    ensures
        exists|doc_uuid: Seq<char>| r.0@ == encode_vertex(VertexKind::Document, doc_uuid),
        edge_between(r.1, EdgeType::DocumentOwner, encode_vertex(user@.0, user@.1), r.0@),
        is_document_marker(r.1.data),
{
    let doc_uuid = fresh_id();
    document_owner_edge(user, doc_uuid.as_str())
}

/// The edges that complete a document's upload: its self edge, its storage
/// location, and its checksum.
pub fn upload_document_completed(doc_id: &str, s3_bucket: &str, s3_key: &str, sha256: &str) -> (r: Result<Vec<Edge>, FormatError>)
    ensures
        decode_vertex(doc_id@) is Err ==> r == Err::<Vec<Edge>, FormatError>(decode_vertex(doc_id@)->Err_0),
        decode_vertex(doc_id@) is Ok ==> r is Ok && ({
            let edges = r->Ok_0@;
            let s3 = encode_vertex(VertexKind::DocumentS3, s3_key@);
            &&& edges.len() == 3
            &&& edge_between(edges[0], EdgeType::DocumentSelf, doc_id@, doc_id@)
            &&& is_document_marker(edges[0].data)
            &&& edge_between(edges[1], EdgeType::DocumentS3, doc_id@, s3)
            &&& edges[1].data is Some && edges[1].data->Some_0 is S3Document
            &&& edges[1].data->Some_0->S3Document_0.bucket@ == s3_bucket@
            &&& edges[1].data->Some_0->S3Document_0.key@ == s3_key@
            &&& edge_between(edges[2], EdgeType::DocumentChecksum, doc_id@, encode_vertex(VertexKind::ChecksumSha256, sha256@))
            &&& edges[2].data is None
        }),
{
    let doc = match Vertex::from_str(doc_id) {
        Ok(v) => v,
        Err(e) => {
            return Err(e);
        },
    };
    proof {
        lemma_decode_encode(doc_id@);
    }
    let s3 = Vertex::new(VertexKind::DocumentS3, String::from_str(s3_key));
    let checksum = Vertex::new(VertexKind::ChecksumSha256, String::from_str(sha256));
    let location = S3Document { bucket: String::from_str(s3_bucket), key: String::from_str(s3_key) };
    let mut edges: Vec<Edge> = Vec::new();
    edges.push(new_edge(&doc, &EdgeType::DocumentSelf, &doc, document_marker()));
    edges.push(new_edge(&doc, &EdgeType::DocumentS3, &s3, Some(VertexData::S3Document(location))));
    edges.push(new_edge(&doc, &EdgeType::DocumentChecksum, &checksum, None));
    Ok(edges)
}

/// Looking up the personal number of a user just created in an empty table
/// finds exactly that user, with that personal number.
pub proof fn lemma_lookup_after_create(
    uuid: Seq<char>,
    personal_number: Seq<char>,
    name: Seq<char>,
    given_name: Seq<char>,
    surname: Seq<char>,
    email: Option<Seq<char>>,
    phone: Option<Seq<char>>,
    user_id: Seq<char>,
    edges: Seq<Edge>,
    found: Seq<User>,
)
    requires
        is_new_user(uuid, personal_number, name, given_name, surname, email, phone, user_id, edges),
        users_found_for(upsert_all(Seq::empty(), edges), personal_number, found),
    ensures
        found.len() == 1,
        opt_view(found[0].personal_number) == Some(personal_number),
{
    let u = encode_vertex(VertexKind::User, uuid);
    let pv = encode_vertex(VertexKind::PersonalNumber, personal_number);
    let n_email: int = if email is Some { 1 } else { 0 };
    let n = edges.len();
    // The type and destination kind of each edge.
    let ty = |i: int| if i == 0 {
        EdgeType::UserSelf
    } else if i == 1 {
        EdgeType::UserPersonalNumber
    } else if email is Some && i == 2 {
        EdgeType::UserEmail
    } else {
        EdgeType::UserPhone
    };
    let kind = |i: int| if i == 0 {
        VertexKind::User
    } else if i == 1 {
        VertexKind::PersonalNumber
    } else if email is Some && i == 2 {
        VertexKind::Email
    } else {
        VertexKind::Phone
    };
    assert forall|i: int| 0 <= i < n implies edges[i].vertex_a@ == u && edges[i].edge@ == edge_key(
        ty(i),
        u,
        edges[i].vertex_b@,
    ) && destination_kind(edges[i]) == Some(kind(i)) && ("usr_"@).is_prefix_of(edges[i].edge@)
        && (i == 1 <==> edges[i].vertex_b@ == pv) by {
        lemma_vertex_round_trip(VertexKind::User, uuid);
        lemma_vertex_round_trip(VertexKind::PersonalNumber, personal_number);
        if email is Some {
            lemma_vertex_round_trip(VertexKind::Email, email->Some_0);
        }
        if phone is Some {
            lemma_vertex_round_trip(VertexKind::Phone, phone->Some_0);
        }
        lemma_user_tag_prefix(ty(i));
        let tag = edge_tag(ty(i));
        let rest = seq!['|'] + u + seq!['|'] + edges[i].vertex_b@;
        assert(edges[i].edge@ =~= tag + rest);
        assert((tag + rest).take("usr_"@.len() as int) =~= tag.take("usr_"@.len() as int));
    }
    assert(keys_unique(edges)) by {
        assert forall|i: int, j: int| 0 <= i < n && 0 <= j < n && i != j implies !same_key(edges[i], edges[j]) by {
            assert(ty(i) != ty(j));
            lemma_edge_keys_differ(ty(i), u, edges[i].vertex_b@, ty(j), u, edges[j].vertex_b@);
        }
    }
    lemma_upsert_all_fresh(edges);
    let t = upsert_all(Seq::empty(), edges);
    assert(t == edges);
    lemma_filter_all(edges, source_and_prefix(u, "usr_"@));
    assert(user_edges_in(t, u) == edges);
    lemma_filter_only(edges, destination_is(pv), 1);
    assert(personal_number_links(t, personal_number) == seq![edges[1]]);
    lemma_filter_all(seq![edges[1]], source_has_user_edges(t));
    assert forall|i: int| 0 <= i < n && i != 1 implies destination_kind(edges[i]) != Some(VertexKind::PersonalNumber) by {
        assert(kind(i) != VertexKind::PersonalNumber);
    }
    lemma_last_identifier_only(edges, VertexKind::PersonalNumber, 1);
    lemma_vertex_round_trip(VertexKind::PersonalNumber, personal_number);
    assert(user_matches(edges[1].vertex_a, user_edges_in(t, edges[1].vertex_a@), Some(found[0])));
}

} // verus!
