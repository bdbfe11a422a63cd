use insignia_graph::domain::{Edge, EdgeType, FormatError, Session, SessionData, User, Vertex, VertexData};
use insignia_graph::ops::{session_login, session_logout_edges, session_start, SessionError};
use insignia_graph::session::{resolve_sessions, session_user_id};
use insignia_graph::store::{new_edge, EdgeTable};

fn state(created: Option<&str>, login: Option<&str>, logout: Option<&str>) -> Option<VertexData> {
    Some(VertexData::SessionData(SessionData {
        created: created.map(|s| s.to_string()),
        session_login_id: None,
        login: login.map(|s| s.to_string()),
        logout: logout.map(|s| s.to_string()),
        auth_data: None,
    }))
}

fn session() -> Vertex {
    Vertex::Session("s1".to_string())
}

fn self_edge() -> Edge {
    new_edge(&session(), &EdgeType::SessionSelf, &session(), state(Some("T0"), None, None))
}

fn login_edge(id: &str, t: &str) -> Edge {
    let l = Vertex::SessionLogin(id.to_string());
    new_edge(&session(), &EdgeType::SessionLogin, &l, state(None, Some(t), None))
}

fn logout_edge(id: &str, t: &str) -> Edge {
    let l = Vertex::SessionLogin(id.to_string());
    new_edge(&session(), &EdgeType::SessionLogout, &l, state(None, None, Some(t)))
}

#[test]
fn single_login_then_logout() {
    let id = "Session-s1".to_string();
    let edges = vec![self_edge(), login_edge("l1", "T1")];
    let r = resolve_sessions(&id, &edges, None);
    assert_eq!(r.len(), 1);
    assert_eq!(r[0].login, Some("T1".to_string()));
    assert_eq!(r[0].logout, None);
    assert_eq!(r[0].created, Some("T0".to_string()));
    assert_eq!(r[0].session_login_id, Some("SessionLogin-l1".to_string()));

    let edges = vec![self_edge(), login_edge("l1", "T1"), logout_edge("l1", "T2")];
    let r = resolve_sessions(&id, &edges, None);
    assert_eq!(r.len(), 1);
    assert_eq!(r[0].session_login_id, None);
    assert_eq!(r[0].login, None);
    assert_eq!(r[0].logout, None);
    assert_eq!(r[0].auth_data, None);
    assert_eq!(r[0].created, Some("T0".to_string()));
}

#[test]
fn two_logins_one_logged_out() {
    let id = "Session-s1".to_string();
    let edges = vec![self_edge(), login_edge("l1", "T1"), login_edge("l2", "T2"), logout_edge("l1", "T3")];
    let r = resolve_sessions(&id, &edges, None);
    assert_eq!(r.len(), 1);
    assert_eq!(r[0].session_login_id, Some("SessionLogin-l2".to_string()));
    assert_eq!(r[0].login, Some("T2".to_string()));
}

#[test]
fn two_open_logins_give_two_sessions() {
    let id = "Session-s1".to_string();
    let edges = vec![self_edge(), login_edge("l1", "T1"), login_edge("l2", "T2")];
    let r = resolve_sessions(&id, &edges, None);
    assert_eq!(r.len(), 2);
    assert_eq!(r[0].session_login_id, Some("SessionLogin-l1".to_string()));
    assert_eq!(r[1].session_login_id, Some("SessionLogin-l2".to_string()));
}

#[test]
fn duplicate_login_last_wins() {
    let id = "Session-s1".to_string();
    let edges = vec![self_edge(), login_edge("l1", "T1"), login_edge("l1", "T9")];
    let r = resolve_sessions(&id, &edges, None);
    assert_eq!(r.len(), 1);
    assert_eq!(r[0].login, Some("T9".to_string()));
}

#[test]
fn no_edges_no_sessions() {
    let r = resolve_sessions(&"Session-s1".to_string(), &vec![], None);
    assert!(r.is_empty());
}

#[test]
fn linked_user_is_last_user_edge() {
    let u1 = Vertex::User("a".to_string());
    let u2 = Vertex::User("b".to_string());
    let edges = vec![
        self_edge(),
        new_edge(&session(), &EdgeType::SessionUser, &u1, None),
        new_edge(&session(), &EdgeType::SessionUser, &u2, None),
    ];
    assert_eq!(session_user_id(&edges), Some("User-b".to_string()));
    assert_eq!(session_user_id(&vec![self_edge()]), None);
}

fn some_user() -> User {
    User {
        user_id: "User-u".to_string(),
        name: Some("N".to_string()),
        given_name: None,
        surname: None,
        personal_number: None,
        email: None,
        phone: None,
    }
}

#[test]
fn session_start_edge() {
    let (s, e) = session_start("abc", "T0");
    assert_eq!(s.session_id, "Session-abc");
    assert_eq!(s.created, Some("T0".to_string()));
    assert_eq!(e.edge, "session_self|Session-abc|Session-abc");
    assert_eq!(e.data, state(Some("T0"), None, None));
}

#[test]
fn session_login_errors() {
    let sessions = resolve_sessions(&"Session-s1".to_string(), &vec![self_edge()], None);
    assert_eq!(
        session_login("bad", "User-u", Some(some_user()), &sessions, "l", "T1", "proof").err(),
        Some(SessionError::InvalidFormat(FormatError::MissingSeparator))
    );
    assert_eq!(
        session_login("Session-s1", "User-u", None, &sessions, "l", "T1", "proof").err(),
        Some(SessionError::InvalidUserId)
    );
    assert_eq!(
        session_login("Session-s1", "Bogus-u", Some(some_user()), &sessions, "l", "T1", "proof").err(),
        Some(SessionError::InvalidFormat(FormatError::UnknownKind))
    );
    assert_eq!(
        session_login("Session-s1", "User-u", Some(some_user()), &vec![], "l", "T1", "proof").err(),
        Some(SessionError::InvalidSessionId)
    );
}

#[test]
fn session_login_then_logout_through_table() {
    let mut t = EdgeTable::new();
    t.put_edge(self_edge());
    let id = "Session-s1".to_string();
    let sessions = t.sessions_get(&id);
    assert_eq!(sessions.len(), 1);
    let (edges, s) = session_login("Session-s1", "User-u", Some(some_user()), &sessions, "l1", "T1", "proof").unwrap();
    assert_eq!(edges.len(), 2);
    assert_eq!(edges[0].edge, "session_user|Session-s1|User-u");
    assert_eq!(edges[1].edge, "session_login|Session-s1|SessionLogin-l1");
    assert_eq!(s.login, Some("T1".to_string()));
    assert_eq!(s.auth_data, Some("proof".to_string()));
    assert_eq!(s.created, Some("T0".to_string()));
    assert_eq!(s.session_login_id, Some("SessionLogin-l1".to_string()));
    assert_eq!(s.user, Some(some_user()));
    for e in edges {
        t.put_edge(e);
    }
    let open = t.sessions_get(&id);
    assert_eq!(open.len(), 1);
    assert_eq!(open[0].login, Some("T1".to_string()));
    assert_eq!(open[0].created, Some("T0".to_string()));
    assert_eq!(open[0].auth_data, Some("proof".to_string()));

    let out = session_logout_edges("Session-s1", &open, "T2").unwrap();
    assert_eq!(out.len(), 1);
    assert_eq!(out[0].edge, "session_logout|Session-s1|SessionLogin-l1");
    for e in out {
        t.put_edge(e);
    }
    let after = t.sessions_get(&id);
    assert_eq!(after.len(), 1);
    assert_eq!(after[0].session_login_id, None);
    assert_eq!(after[0].created, Some("T0".to_string()));
}

#[test]
fn logout_skips_anonymous_and_rejects_bad_id() {
    let anon = Session {
        session_id: "Session-s1".to_string(),
        created: None,
        session_login_id: None,
        login: None,
        logout: None,
        auth_data: None,
        user: None,
    };
    assert_eq!(session_logout_edges("Session-s1", &vec![anon], "T").unwrap().len(), 0);
    assert_eq!(session_logout_edges("s1", &vec![], "T").err(), Some(FormatError::MissingSeparator));
}
