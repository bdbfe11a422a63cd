use insignia_graph::domain::{
    DocumentReference, EdgeType, FormatError, S3Document, Session, SessionData, User, UserData, Vertex, VertexData,
};
use insignia_graph::ops::{document_owner_edge, new_user, session_new, upload_document_completed, user_edges};
use insignia_graph::store::{new_edge, EdgeTable};
use insignia_graph::users::{found_users, user_from_edges};

#[test]
fn lookup_by_personal_number_after_create() {
    let mut t = EdgeTable::new();
    let (id, edges) = new_user("191212121212", "Tolvan Tolvansson", "Tolvan", "Tolvansson", Some("t@x.se"), None);
    assert!(id.starts_with("User-"));
    t.put_edges(edges);
    let users = t.get_users_by_personal_number("191212121212");
    assert_eq!(users.len(), 1);
    assert_eq!(users[0].personal_number, Some("191212121212".to_string()));
    assert_eq!(users[0].user_id, id);
    assert_eq!(users[0].email, Some("t@x.se".to_string()));
    assert_eq!(users[0].phone, None);
    assert_eq!(users[0].given_name, Some("Tolvan".to_string()));
    assert!(t.get_users_by_personal_number("000").is_empty());
}

#[test]
fn fresh_identifiers_differ() {
    let (a, _) = new_user("1", "n", "g", "s", None, None);
    let (b, _) = new_user("1", "n", "g", "s", None, None);
    assert_ne!(a, b);
    assert_eq!(a.len(), "User-".len() + 36);
    let (s1, _) = session_new();
    let (s2, _) = session_new();
    assert_ne!(s1.session_id, s2.session_id);
    assert!(s1.created.unwrap().len() > 0);
}

#[test]
fn user_edges_exact() {
    let (id, edges) = user_edges("u", "19", "N", "G", "S", Some("e@x"), Some("+46"));
    assert_eq!(id, "User-u");
    let keys: Vec<String> = edges.iter().map(|e| e.edge.clone()).collect();
    assert_eq!(
        keys,
        vec![
            "usr_self|User-u|User-u".to_string(),
            "usr_personal_number|User-u|PersonalNumber-19".to_string(),
            "usr_email|User-u|Email-e@x".to_string(),
            "usr_phone|User-u|Phone-+46".to_string(),
        ]
    );
    let (_, short) = user_edges("u", "19", "N", "G", "S", None, Some("+46"));
    assert_eq!(short.len(), 3);
    assert_eq!(short[2].edge, "usr_phone|User-u|Phone-+46");
}

#[test]
fn get_user_assembles_profile() {
    let mut t = EdgeTable::new();
    let (id, edges) = user_edges("u", "19", "N", "G", "S", None, Some("+46"));
    t.put_edges(edges);
    let u = t.get_user(&id).unwrap();
    assert_eq!(
        u,
        User {
            user_id: "User-u".to_string(),
            name: Some("N".to_string()),
            given_name: Some("G".to_string()),
            surname: Some("S".to_string()),
            personal_number: Some("19".to_string()),
            email: None,
            phone: Some("+46".to_string()),
        }
    );
    assert_eq!(t.get_user(&"User-x".to_string()), None);
    assert_eq!(user_from_edges(&"User-x".to_string(), &vec![]), None);
}

#[test]
fn found_users_keeps_found() {
    let u = User {
        user_id: "User-a".to_string(),
        name: None,
        given_name: None,
        surname: None,
        personal_number: None,
        email: None,
        phone: None,
    };
    assert_eq!(found_users(vec![None, Some(u.clone()), None]), vec![u]);
}

#[test]
fn documents_of_user() {
    let mut t = EdgeTable::new();
    let user = Vertex::User("u".to_string());
    let (doc, e) = document_owner_edge(&user, "d1");
    assert_eq!(doc, "Document-d1");
    assert_eq!(e.edge, "doc_acl_owner|User-u|Document-d1");
    t.put_edge(e);
    t.put_edge(new_edge(&user, &EdgeType::UserSelf, &user, None));
    let docs = t.get_user_documents("User-u");
    assert_eq!(docs.len(), 1);
    assert_eq!(docs[0].doc_id, "Document-d1");
}

#[test]
fn document_completion_edges() {
    let edges = upload_document_completed("Document-d1", "bucket", "key/1", "abcd").unwrap();
    assert_eq!(edges.len(), 3);
    assert_eq!(edges[0].edge, "doc_self|Document-d1|Document-d1");
    assert_eq!(edges[1].edge, "doc_location_s3|Document-d1|S3-key/1");
    assert_eq!(edges[2].edge, "doc_checksum|Document-d1|SHA256-abcd");
    match &edges[1].data {
        Some(VertexData::S3Document(d)) => {
            assert_eq!(d.bucket, "bucket");
            assert_eq!(d.key, "key/1");
        }
        _ => panic!("expected a storage location"),
    }
    assert_eq!(upload_document_completed("d1", "b", "k", "c").err(), Some(FormatError::MissingSeparator));
}

#[test]
fn user_text_form() {
    let u = User {
        user_id: "User-u".to_string(),
        name: Some("N".to_string()),
        given_name: None,
        surname: None,
        personal_number: None,
        email: None,
        phone: None,
    };
    assert_eq!(
        u.to_string(),
        "User{user_id: \"User-u\", name: Some(\"N\"), given_name: None, surname: None, personal_number: None, email: None, phone: None}"
    );
}

#[test]
fn session_data_and_text_forms() {
    let s = Session {
        session_id: "Session-s".to_string(),
        created: Some("T0".to_string()),
        session_login_id: Some("SessionLogin-l".to_string()),
        login: Some("T1".to_string()),
        logout: None,
        auth_data: Some("a".to_string()),
        user: None,
    };
    assert_eq!(
        s.session_data(),
        SessionData {
            created: Some("T0".to_string()),
            session_login_id: Some("SessionLogin-l".to_string()),
            login: Some("T1".to_string()),
            logout: None,
            auth_data: Some("a".to_string()),
        }
    );
    assert_eq!(
        s.to_string(),
        "Session{session_id: \"Session-s\", created: Some(\"T0\"), login: Some(\"T1\"), logout: None, auth_data: Some(\"a\"), user: None}"
    );
    assert_eq!(
        s.session_data().to_string(),
        "SessionData{, created: Some(\"T0\"), login: Some(\"T1\"), logout: None, auth_data: Some(\"a\")}"
    );
    assert_eq!(
        S3Document { bucket: "b".to_string(), key: "k".to_string() }.to_string(),
        "S3Document{, bucket: Some(\"b\"), key: Some(\"k\")}"
    );
    assert_eq!(
        UserData { name: None, given_name: Some("G".to_string()), surname: None }.to_string(),
        "UserData{, name: None, given_name: Some(\"G\"), surname: None}"
    );
    assert_eq!(DocumentReference { doc_id: "Document-d".to_string() }.to_string(), "DocumentReference{doc_id: \"Document-d\"}");
}
