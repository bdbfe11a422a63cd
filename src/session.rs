//! Session reconciliation: the login sessions that a session vertex's
//! append-only edge log describes.

use vstd::prelude::*;
use crate::store::{source_and_prefix, EdgeTable};
use crate::users::{user_edges_in, user_matches};
use crate::domain::{
    destination_kind, session_payload, vertex_kind_of, clone_opt, Edge, Session, SessionData,
    User, VertexData, VertexKind,
};

verus! {

broadcast use vstd::seq_lib::group_filter_ensures;

/// A login entry: the login vertex's string and the state recorded for it.
pub type LoginEntry = (String, SessionData);

/// The `created` of the last session-self edge with a session payload.
pub open spec fn created_of(edges: Seq<Edge>) -> Option<String>
    decreases edges.len(),
{
    if edges.len() == 0 {
        None
    } else if destination_kind(edges.last()) == Some(VertexKind::Session) && session_payload(
        edges.last(),
    ) is Some {
        session_payload(edges.last())->Some_0.created
    } else {
        created_of(edges.drop_last())
    }
}

/// Entries other than the one for `id`.
pub open spec fn other_logins(id: Seq<char>) -> spec_fn(LoginEntry) -> bool {
    |p: LoginEntry| p.0@ != id
}

/// Records a login; a later entry for the same login vertex replaces an
/// earlier one.
pub open spec fn record_login(s: Seq<LoginEntry>, p: LoginEntry) -> Seq<LoginEntry> {
    s.filter(other_logins(p.0@)).push(p)
}

/// A login edge: to a login vertex, with a session payload.
pub open spec fn login_state(e: Edge) -> Option<SessionData> {
    if destination_kind(e) == Some(VertexKind::SessionLogin) {
        session_payload(e)
    } else {
        None
    }
}

/// The logins that the edges record, in order.
pub open spec fn logins_of(edges: Seq<Edge>) -> Seq<LoginEntry>
    decreases edges.len(),
{
    if edges.len() == 0 {
        Seq::empty()
    } else {
        let prev = logins_of(edges.drop_last());
        let e = edges.last();
        match login_state(e) {
            Some(d) => if d.login is Some {
                record_login(prev, (e.vertex_b, d))
            } else {
                prev
            },
            None => prev,
        }
    }
}

/// The login vertices that the edges record a logout for.
pub open spec fn logouts_of(edges: Seq<Edge>) -> Seq<Seq<char>>
    decreases edges.len(),
{
    if edges.len() == 0 {
        Seq::empty()
    } else {
        let prev = logouts_of(edges.drop_last());
        let e = edges.last();
        match login_state(e) {
            Some(d) => if d.logout is Some {
                prev.push(e.vertex_b@)
            } else {
                prev
            },
            None => prev,
        }
    }
}

/// Entries whose login vertex has no logout.
pub open spec fn not_logged_out(logouts: Seq<Seq<char>>) -> spec_fn(LoginEntry) -> bool {
    |p: LoginEntry| !logouts.contains(p.0@)
}

/// The logins still open: recorded, and not logged out.
pub open spec fn open_logins(edges: Seq<Edge>) -> Seq<LoginEntry> {
    logins_of(edges).filter(not_logged_out(logouts_of(edges)))
}

/// The session with no open login.
pub open spec fn anonymous_session(session_id: String, created: Option<String>, user: Option<User>) -> Session {
    Session {
        session_id,
        created,
        session_login_id: None,
        login: None,
        logout: None,
        auth_data: None,
        user,
    }
}

/// The session of one open login.
pub open spec fn login_session(
    session_id: String,
    created: Option<String>,
    p: LoginEntry,
    user: Option<User>,
) -> Session {
    Session {
        session_id,
        created,
        session_login_id: Some(p.0),
        login: p.1.login,
        logout: p.1.logout,
        auth_data: p.1.auth_data,
        user,
    }
}

/// The sessions that a session vertex's edges describe: none without
/// edges; one per open login; else the anonymous session alone.
pub open spec fn resolved_sessions(session_id: String, edges: Seq<Edge>, user: Option<User>) -> Seq<Session> {
    if edges.len() == 0 {
        Seq::empty()
    } else if open_logins(edges).len() == 0 {
        seq![anonymous_session(session_id, created_of(edges), user)]
    } else {
        open_logins(edges).map_values(
            |p: LoginEntry| login_session(session_id, created_of(edges), p, user),
        )
    }
}

/// The views of a list of strings.
pub open spec fn views(v: Seq<String>) -> Seq<Seq<char>> {
    v.map_values(|x: String| x@)
}

/// Whether `ids` holds a string equal to `s`.
pub fn contains_id(ids: &Vec<String>, s: &String) -> (r: bool)
    ensures
        r == views(ids@).contains(s@),
{
    let mut i: usize = 0;
    while i < ids.len()
        invariant
            i <= ids@.len(),
            forall|j: int| 0 <= j < i ==> ids@[j]@ != s@,
        decreases ids@.len() - i,
    {
        if ids[i] == *s {
            assert(views(ids@)[i as int] == s@);
            return true;
        }
        i = i + 1;
    }
    proof {
        if views(ids@).contains(s@) {
            let j = choose|j: int| 0 <= j < views(ids@).len() && views(ids@)[j] == s@;
            assert(ids@[j]@ == s@);
        }
    }
    false
}

/// `record_login` on a list of entries.
fn record_login_entry(logins: Vec<LoginEntry>, p: LoginEntry) -> (r: Vec<LoginEntry>)
    ensures
        r@ == record_login(logins@, p),
{
    let mut r: Vec<LoginEntry> = Vec::new();
    let mut logins = logins;
    let ghost all = logins@;
    let mut i: usize = 0;
    let n = logins.len();
    while i < n
        invariant
            n == all.len(),
            i <= n,
            logins@ == all.skip(i as int),
            r@ == all.take(i as int).filter(other_logins(p.0@)),
        decreases n - i,
    {
        proof {
            assert(all.take(i + 1).drop_last() =~= all.take(i as int));
            reveal(Seq::filter);
        }
        let (id, d) = logins.remove(0);
        assert(logins@ =~= all.skip(i + 1));
        if !(id == p.0) {
            r.push((id, d));
        }
        i = i + 1;
    }
    assert(all.take(n as int) =~= all);
    r.push(p);
    r
}

/// The sessions that the edges under `session_id` describe (one per login
/// not logged out, or the anonymous session alone, or none without edges).
/// `user` is the profile of the user the session is linked to, as looked
/// up from `session_user_id`.
pub fn resolve_sessions(session_id: &String, edges: &Vec<Edge>, user: Option<User>) -> (r: Vec<Session>)
    ensures
        r@ == resolved_sessions(*session_id, edges@, user),
{
    if edges.len() == 0 {
        return Vec::new();
    }
    let mut created: Option<String> = None;
    let mut logins: Vec<LoginEntry> = Vec::new();
    let mut logouts: Vec<String> = Vec::new();
    let mut i: usize = 0;
    while i < edges.len()
        invariant
            i <= edges@.len(),
            created == created_of(edges@.take(i as int)),
            logins@ == logins_of(edges@.take(i as int)),
            views(logouts@) == logouts_of(edges@.take(i as int)),
        decreases edges@.len() - i,
    {
        let ghost pre = edges@.take(i as int);
        assert(edges@.take(i + 1).drop_last() =~= pre);
        let e = &edges[i];
        let kind = vertex_kind_of(e.vertex_b.as_str());
        if let Some(VertexData::SessionData(d)) = &e.data {
            if kind == Some(VertexKind::Session) {
                created = clone_opt(&d.created);
            } else if kind == Some(VertexKind::SessionLogin) {
                if d.login.is_some() {
                    logins = record_login_entry(logins, (e.vertex_b.clone(), d.clone()));
                }
                if d.logout.is_some() {
                    logouts.push(e.vertex_b.clone());
                    assert(views(logouts@) =~= logouts_of(pre).push(e.vertex_b@));
                }
            }
        }
        i = i + 1;
    }
    assert(edges@.take(i as int) =~= edges@);
    let ghost all_logins = logins@;
    let ghost closed = views(logouts@);
    let mut open: Vec<LoginEntry> = Vec::new();
    let mut j: usize = 0;
    while j < logins.len()
        invariant
            logins@ == all_logins,
            closed == views(logouts@),
            j <= logins@.len(),
            open@ == all_logins.take(j as int).filter(not_logged_out(closed)),
        decreases logins@.len() - j,
    {
        proof {
            assert(all_logins.take(j + 1).drop_last() =~= all_logins.take(j as int));
            reveal(Seq::filter);
        }
        if !contains_id(&logouts, &logins[j].0) {
            open.push((logins[j].0.clone(), logins[j].1.clone()));
        }
        j = j + 1;
    }
    assert(all_logins.take(j as int) =~= all_logins);
    let mut r: Vec<Session> = Vec::new();
    if open.len() == 0 {
        r.push(
            Session {
                session_id: session_id.clone(),
                created,
                session_login_id: None,
                login: None,
                logout: None,
                auth_data: None,
                user,
            },
        );
        assert(r@ =~= resolved_sessions(*session_id, edges@, user));
        return r;
    }
    let mut k: usize = 0;
    while k < open.len()
        invariant
            k <= open@.len(),
            open@ == open_logins(edges@),
            created == created_of(edges@),
            r@ == open@.take(k as int).map_values(
                |p: LoginEntry| login_session(*session_id, created_of(edges@), p, user),
            ),
        decreases open@.len() - k,
    {
        let u = match &user {
            Some(u) => Some(u.clone()),
            None => None,
        };
        r.push(
            Session {
                session_id: session_id.clone(),
                created: clone_opt(&created),
                session_login_id: Some(open[k].0.clone()),
                login: clone_opt(&open[k].1.login),
                logout: clone_opt(&open[k].1.logout),
                auth_data: clone_opt(&open[k].1.auth_data),
                user: u,
            },
        );
        assert(open@.take(k + 1).drop_last() =~= open@.take(k as int));
        k = k + 1;
    }
    assert(open@.take(k as int) =~= open@);
    r
}

/// The last user vertex that the edges link to.
pub open spec fn linked_user(edges: Seq<Edge>) -> Option<String>
    decreases edges.len(),
{
    if edges.len() == 0 {
        None
    } else if destination_kind(edges.last()) == Some(VertexKind::User) {
        Some(edges.last().vertex_b)
    } else {
        linked_user(edges.drop_last())
    }
}

/// The user vertex whose profile the session carries.
pub fn session_user_id(edges: &Vec<Edge>) -> (r: Option<String>)
    ensures
        r == linked_user(edges@),
{
    let mut r: Option<String> = None;
    let mut i: usize = 0;
    while i < edges.len()
        invariant
            i <= edges@.len(),
            r == linked_user(edges@.take(i as int)),
        decreases edges@.len() - i,
    {
        assert(edges@.take(i + 1).drop_last() =~= edges@.take(i as int));
        if vertex_kind_of(edges[i].vertex_b.as_str()) == Some(VertexKind::User) {
            r = Some(edges[i].vertex_b.clone());
        }
        i = i + 1;
    }
    assert(edges@.take(i as int) =~= edges@);
    r
}

/// A session-self edge carrying session state `d`.
pub open spec fn is_self_edge(e: Edge, d: SessionData) -> bool {
    destination_kind(e) == Some(VertexKind::Session) && session_payload(e) == Some(d)
}

/// A login edge to a login vertex, recording a login and no logout.
pub open spec fn is_login_edge(e: Edge, d: SessionData) -> bool {
    &&& destination_kind(e) == Some(VertexKind::SessionLogin)
    &&& session_payload(e) == Some(d)
    &&& d.login is Some
    &&& d.logout is None
}

/// An edge to the login vertex `login`, recording a logout.
pub open spec fn is_logout_edge(e: Edge, d: SessionData, login: Seq<char>) -> bool {
    &&& destination_kind(e) == Some(VertexKind::SessionLogin)
    &&& session_payload(e) == Some(d)
    &&& d.logout is Some
    &&& e.vertex_b@ == login
}

proof fn lemma_filter_one(p: LoginEntry, f: spec_fn(LoginEntry) -> bool)
    ensures
        seq![p].filter(f) == (if f(p) { seq![p] } else { Seq::<LoginEntry>::empty() }),
{
    reveal(Seq::filter);
    assert(seq![p].drop_last() =~= Seq::<LoginEntry>::empty());
    assert(seq![p].last() == p);
    assert(Seq::<LoginEntry>::empty().filter(f) == Seq::<LoginEntry>::empty());
    assert(Seq::<LoginEntry>::empty().push(p) =~= seq![p]);
}

proof fn lemma_filter_two(p: LoginEntry, q: LoginEntry, f: spec_fn(LoginEntry) -> bool)
    ensures
        f(p) && !f(q) ==> seq![p, q].filter(f) == seq![p],
        !f(p) && f(q) ==> seq![p, q].filter(f) == seq![q],
        f(p) && f(q) ==> seq![p, q].filter(f) == seq![p, q],
{
    reveal(Seq::filter);
    assert(seq![p, q].drop_last() =~= seq![p]);
    assert(seq![p, q].last() == q);
    lemma_filter_one(p, f);
    assert(seq![p].push(q) =~= seq![p, q]);
    assert(Seq::<LoginEntry>::empty().push(q) =~= seq![q]);
}

/// A session with its self edge and one login not logged out resolves to
/// that login alone; once a logout edge for the same login vertex is added,
/// it resolves to the anonymous session, which keeps the creation time.
pub proof fn lemma_single_login_then_logout(
    session_id: String,
    user: Option<User>,
    a: Edge,
    da: SessionData,
    b: Edge,
    db: SessionData,
    c: Edge,
    dc: SessionData,
)
    requires
        is_self_edge(a, da),
        is_login_edge(b, db),
        is_logout_edge(c, dc, b.vertex_b@),
    ensures
        resolved_sessions(session_id, seq![a, b], user) == seq![
            login_session(session_id, da.created, (b.vertex_b, db), user),
        ],
        resolved_sessions(session_id, seq![a, b, c], user) == seq![
            anonymous_session(session_id, da.created, user),
        ],
{
    reveal(Seq::filter);
    let s1 = seq![a];
    let s2 = seq![a, b];
    let s3 = seq![a, b, c];
    assert(s1.drop_last() =~= Seq::<Edge>::empty());
    assert(s2.drop_last() =~= s1);
    assert(s3.drop_last() =~= s2);
    assert(s1.last() == a && s2.last() == b && s3.last() == c);
    assert(created_of(s1) == da.created);
    assert(logins_of(Seq::<Edge>::empty()) == Seq::<LoginEntry>::empty());
    assert(logouts_of(Seq::<Edge>::empty()) == Seq::<Seq<char>>::empty());
    assert(login_state(a) is None);
    assert(logins_of(s1) == Seq::<LoginEntry>::empty());
    assert(logouts_of(s1) == Seq::<Seq<char>>::empty());
    let pb: LoginEntry = (b.vertex_b, db);
    lemma_filter_one(pb, other_logins(b.vertex_b@));
    assert(Seq::<LoginEntry>::empty().filter(other_logins(b.vertex_b@)) =~= Seq::<LoginEntry>::empty());
    assert(logins_of(s2) =~= seq![pb]);
    assert(logouts_of(s2) =~= Seq::<Seq<char>>::empty());
    lemma_filter_one(pb, not_logged_out(logouts_of(s2)));
    assert(open_logins(s2) =~= seq![pb]);
    assert(created_of(s2) == da.created);
    assert(resolved_sessions(session_id, s2, user) =~= seq![
        login_session(session_id, da.created, pb, user),
    ]);
    assert(created_of(s3) == da.created);
    assert(logouts_of(s3) =~= seq![b.vertex_b@]);
    assert(seq![b.vertex_b@].contains(b.vertex_b@)) by {
        assert(seq![b.vertex_b@][0] == b.vertex_b@);
    }
    let pc: LoginEntry = (c.vertex_b, dc);
    if dc.login is Some {
        lemma_filter_one(pb, other_logins(c.vertex_b@));
        assert(logins_of(s3) =~= seq![pc]);
        lemma_filter_one(pc, not_logged_out(logouts_of(s3)));
    } else {
        assert(logins_of(s3) =~= seq![pb]);
        lemma_filter_one(pb, not_logged_out(logouts_of(s3)));
    }
    assert(open_logins(s3) =~= Seq::<LoginEntry>::empty());
    assert(created_of(s3) == da.created);
}

/// With two distinct login vertices, the first logged out and the second
/// not, the session resolves to the second login alone.
pub proof fn lemma_two_logins_one_logged_out(
    session_id: String,
    user: Option<User>,
    a: Edge,
    da: SessionData,
    b: Edge,
    db: SessionData,
    c: Edge,
    dc: SessionData,
    d: Edge,
    dd: SessionData,
)
    requires
        is_self_edge(a, da),
        is_login_edge(b, db),
        is_login_edge(c, dc),
        b.vertex_b@ != c.vertex_b@,
        is_logout_edge(d, dd, b.vertex_b@),
    ensures
        resolved_sessions(session_id, seq![a, b, c, d], user) == seq![
            login_session(session_id, da.created, (c.vertex_b, dc), user),
        ],
{
    reveal(Seq::filter);
    let s1 = seq![a];
    let s2 = seq![a, b];
    let s3 = seq![a, b, c];
    let s4 = seq![a, b, c, d];
    assert(s1.drop_last() =~= Seq::<Edge>::empty());
    assert(s2.drop_last() =~= s1);
    assert(s3.drop_last() =~= s2);
    assert(s4.drop_last() =~= s3);
    assert(s1.last() == a && s2.last() == b && s3.last() == c && s4.last() == d);
    assert(created_of(s1) == da.created);
    assert(created_of(s2) == da.created);
    assert(created_of(s3) == da.created);
    assert(logins_of(Seq::<Edge>::empty()) == Seq::<LoginEntry>::empty());
    assert(logouts_of(Seq::<Edge>::empty()) == Seq::<Seq<char>>::empty());
    assert(login_state(a) is None);
    assert(logins_of(s1) == Seq::<LoginEntry>::empty());
    assert(logouts_of(s1) == Seq::<Seq<char>>::empty());
    assert(logouts_of(s2) == Seq::<Seq<char>>::empty());
    assert(logouts_of(s3) == Seq::<Seq<char>>::empty());
    let pb: LoginEntry = (b.vertex_b, db);
    let pc: LoginEntry = (c.vertex_b, dc);
    let pd: LoginEntry = (d.vertex_b, dd);
    assert(Seq::<LoginEntry>::empty().filter(other_logins(b.vertex_b@)) =~= Seq::<LoginEntry>::empty());
    assert(logins_of(s2) =~= seq![pb]);
    lemma_filter_one(pb, other_logins(c.vertex_b@));
    assert(logins_of(s3) =~= seq![pb, pc]);
    let closed = seq![b.vertex_b@];
    assert(logouts_of(s4) =~= closed);
    assert(closed.contains(b.vertex_b@)) by {
        assert(closed[0] == b.vertex_b@);
    }
    assert(!closed.contains(c.vertex_b@));
    if dd.login is Some {
        lemma_filter_two(pb, pc, other_logins(d.vertex_b@));
        assert(logins_of(s4) =~= seq![pc, pd]);
        lemma_filter_two(pc, pd, not_logged_out(closed));
    } else {
        assert(logins_of(s4) =~= seq![pb, pc]);
        lemma_filter_two(pb, pc, not_logged_out(closed));
    }
    assert(open_logins(s4) =~= seq![pc]);
    assert(created_of(s4) == da.created);
    assert(resolved_sessions(session_id, s4, user) =~= seq![
        login_session(session_id, da.created, pc, user),
    ]);
}

/// A session's edges of the session namespace in the table `t`.
pub open spec fn session_edges_in(t: Seq<Edge>, session_id: Seq<char>) -> Seq<Edge> {
    t.filter(source_and_prefix(session_id, "session_"@))
}

impl EdgeTable {
    /// The sessions of `session_id`, reconciled from its session edges, each
    /// carrying the user the session is linked to.
    pub fn sessions_get(&self, session_id: &String) -> (r: Vec<Session>)
        ensures
            exists|user: Option<User>|
                r@ == resolved_sessions(*session_id, session_edges_in(self@, session_id@), user) && (
                match linked_user(session_edges_in(self@, session_id@)) {
                    Some(u) => user_matches(u, user_edges_in(self@, u@), user),
                    None => user is None,
                }),
    {
        let edges = self.edges_from_with_prefix(session_id.as_str(), "session_");
        let user = match session_user_id(&edges) {
            Some(u) => self.get_user(&u),
            None => None,
        };
        let ghost found = user;
        let r = resolve_sessions(session_id, &edges, user);
        assert(r@ == resolved_sessions(*session_id, session_edges_in(self@, session_id@), found));
        r
    }
}

} // verus!
