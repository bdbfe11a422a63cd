use insignia_graph::domain::{EdgeType, FormatError, Vertex, VertexKind};
use insignia_graph::store::new_edge;

#[test]
fn one_result() {
    let r: Result<(), String> = Ok(());
    assert!(r.is_ok());
}

#[test]
fn vertex_round_trip_with_dashes_dots_and_unicode() {
    let ids = ["abc", "a-b-c", "x.y@z+w", "ärlig-Ö.ß-日本", "", "-", "--"];
    let kinds = [
        VertexKind::User,
        VertexKind::Session,
        VertexKind::SessionLogin,
        VertexKind::Document,
        VertexKind::DocumentS3,
        VertexKind::ChecksumSha256,
        VertexKind::PersonalNumber,
        VertexKind::Email,
        VertexKind::Phone,
    ];
    for k in kinds {
        for id in ids {
            let v = Vertex::new(k, id.to_string());
            let s = v.to_string();
            let back = Vertex::from_str(&s).unwrap();
            assert_eq!(back.kind(), k);
            assert_eq!(back.id(), id);
        }
    }
}

#[test]
fn vertex_string_forms() {
    assert_eq!(Vertex::User("u-1".to_string()).to_string(), "User-u-1");
    assert_eq!(Vertex::DocumentS3("k".to_string()).to_string(), "S3-k");
    assert_eq!(Vertex::ChecksumSha256("ab".to_string()).to_string(), "SHA256-ab");
    assert_eq!(Vertex::SessionLogin("x".to_string()).to_string(), "SessionLogin-x");
    assert_eq!(Vertex::PersonalNumber("191212121212".to_string()).to_string(), "PersonalNumber-191212121212");
}

#[test]
fn vertex_decode_errors() {
    assert_eq!(Vertex::from_str("User").err(), Some(FormatError::MissingSeparator));
    assert_eq!(Vertex::from_str("").err(), Some(FormatError::MissingSeparator));
    assert_eq!(Vertex::from_str("Nobody-1").err(), Some(FormatError::UnknownKind));
    assert_eq!(Vertex::from_str("user-1").err(), Some(FormatError::UnknownKind));
    assert_eq!(Vertex::from_str("-1").err(), Some(FormatError::UnknownKind));
    let v = Vertex::from_str("Email-a-b.c@d").unwrap();
    assert_eq!(v.kind(), VertexKind::Email);
    assert_eq!(v.id(), "a-b.c@d");
}

#[test]
fn edge_type_round_trip() {
    let all = [
        EdgeType::SessionSelf,
        EdgeType::SessionUser,
        EdgeType::SessionLogin,
        EdgeType::SessionLogout,
        EdgeType::UserSelf,
        EdgeType::UserPersonalNumber,
        EdgeType::UserEmail,
        EdgeType::UserPhone,
        EdgeType::DocumentSelf,
        EdgeType::DocumentOwner,
        EdgeType::DocumentReader,
        EdgeType::DocumentS3,
        EdgeType::DocumentChecksum,
        EdgeType::DocumentSignRequest,
        EdgeType::DocumentSignature,
    ];
    for t in all {
        assert_eq!(EdgeType::from_str(&t.to_string()), Ok(t));
    }
    assert_eq!(EdgeType::DocumentOwner.to_string(), "doc_acl_owner");
    assert_eq!(EdgeType::UserSelf.tag(), "usr_self");
}

#[test]
fn edge_type_unknown_tag() {
    assert_eq!(EdgeType::from_str("nope"), Err(FormatError::UnknownKind));
    assert_eq!(EdgeType::from_str(""), Err(FormatError::UnknownKind));
    assert_eq!(EdgeType::from_str("usr_self_x|a|b"), Err(FormatError::UnknownKind));
}

#[test]
fn edge_type_from_edge_key() {
    assert_eq!(EdgeType::from_str("usr_email|User-1|Email-a"), Ok(EdgeType::UserEmail));
    assert_eq!(EdgeType::from_str("session_login|"), Ok(EdgeType::SessionLogin));
}

#[test]
fn new_edge_key() {
    let a = Vertex::User("u-1".to_string());
    let b = Vertex::Email("x@y.z".to_string());
    let e = new_edge(&a, &EdgeType::UserEmail, &b, None);
    assert_eq!(e.vertex_a, "User-u-1");
    assert_eq!(e.vertex_b, "Email-x@y.z");
    assert_eq!(e.edge, "usr_email|User-u-1|Email-x@y.z");
    assert!(e.data.is_none());
}
