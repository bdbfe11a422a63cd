//! The graph's vocabulary: edge types, vertices, stored edges and their
//! payloads, and the read-model aggregates assembled from them.

use vstd::prelude::*;
use vstd::string::*;
use crate::text::{
    before_first, find_char, is_first_index, lacks_char, lemma_first_index_after,
    lemma_first_index_unique, str_eq,
};

verus! {

/// Why a vertex or edge-type string does not parse.
#[derive(Clone, Copy, Debug, PartialEq, Eq, Structural)]
pub enum FormatError {
    /// The string holds no separator after the kind.
    MissingSeparator,
    /// The kind or tag is not one this graph knows.
    UnknownKind,
}

/// The relation kinds between vertices.
#[derive(Clone, Copy, Debug, PartialEq, Eq, Structural)]
pub enum EdgeType {
    SessionSelf,
    SessionUser,
    SessionLogin,
    SessionLogout,
    UserSelf,
    UserPersonalNumber,
    UserEmail,
    UserPhone,
    DocumentSelf,
    DocumentOwner,
    DocumentReader,
    DocumentS3,
    DocumentChecksum,
    DocumentSignRequest,
    DocumentSignature,
}

/// The stable tag of each edge type.
pub open spec fn edge_tag(t: EdgeType) -> Seq<char> {
    match t {
        EdgeType::SessionSelf => "session_self"@,
        EdgeType::SessionUser => "session_user"@,
        EdgeType::SessionLogin => "session_login"@,
        EdgeType::SessionLogout => "session_logout"@,
        EdgeType::UserSelf => "usr_self"@,
        EdgeType::UserPersonalNumber => "usr_personal_number"@,
        EdgeType::UserEmail => "usr_email"@,
        EdgeType::UserPhone => "usr_phone"@,
        EdgeType::DocumentSelf => "doc_self"@,
        EdgeType::DocumentOwner => "doc_acl_owner"@,
        EdgeType::DocumentReader => "doc_acl_reader"@,
        EdgeType::DocumentS3 => "doc_location_s3"@,
        EdgeType::DocumentChecksum => "doc_checksum"@,
        EdgeType::DocumentSignRequest => "doc_signreq"@,
        EdgeType::DocumentSignature => "doc_signature"@,
    }
}

/// The edge type whose tag is `s`, if any.
pub open spec fn edge_type_of_tag(s: Seq<char>) -> Option<EdgeType> {
    if s == "session_self"@ { Some(EdgeType::SessionSelf) }
    else if s == "session_user"@ { Some(EdgeType::SessionUser) }
    else if s == "session_login"@ { Some(EdgeType::SessionLogin) }
    else if s == "session_logout"@ { Some(EdgeType::SessionLogout) }
    else if s == "usr_self"@ { Some(EdgeType::UserSelf) }
    else if s == "usr_personal_number"@ { Some(EdgeType::UserPersonalNumber) }
    else if s == "usr_email"@ { Some(EdgeType::UserEmail) }
    else if s == "usr_phone"@ { Some(EdgeType::UserPhone) }
    else if s == "doc_self"@ { Some(EdgeType::DocumentSelf) }
    else if s == "doc_acl_owner"@ { Some(EdgeType::DocumentOwner) }
    else if s == "doc_acl_reader"@ { Some(EdgeType::DocumentReader) }
    else if s == "doc_location_s3"@ { Some(EdgeType::DocumentS3) }
    else if s == "doc_checksum"@ { Some(EdgeType::DocumentChecksum) }
    else if s == "doc_signreq"@ { Some(EdgeType::DocumentSignRequest) }
    else if s == "doc_signature"@ { Some(EdgeType::DocumentSignature) }
    else { None }
}

/// Decoding an edge type looks only at the tag, the part before the first `|`.
pub open spec fn decode_edge_type(s: Seq<char>) -> Result<EdgeType, FormatError> {
    match edge_type_of_tag(before_first(s, '|')) {
        Some(t) => Ok(t),
        None => Err(FormatError::UnknownKind),
    }
}

impl EdgeType {
    /// The tag of this edge type.
    pub fn tag(&self) -> (r: &'static str)
        ensures
            r@ == edge_tag(*self),
    {
        match self {
            EdgeType::SessionSelf => "session_self",
            EdgeType::SessionUser => "session_user",
            EdgeType::SessionLogin => "session_login",
            EdgeType::SessionLogout => "session_logout",
            EdgeType::UserSelf => "usr_self",
            EdgeType::UserPersonalNumber => "usr_personal_number",
            EdgeType::UserEmail => "usr_email",
            EdgeType::UserPhone => "usr_phone",
            EdgeType::DocumentSelf => "doc_self",
            EdgeType::DocumentOwner => "doc_acl_owner",
            EdgeType::DocumentReader => "doc_acl_reader",
            EdgeType::DocumentS3 => "doc_location_s3",
            EdgeType::DocumentChecksum => "doc_checksum",
            EdgeType::DocumentSignRequest => "doc_signreq",
            EdgeType::DocumentSignature => "doc_signature",
        }
    }

    /// The tag of this edge type as an owned string.
    pub fn to_string(&self) -> (r: String)
        ensures
            r@ == edge_tag(*self),
    {
        String::from_str(self.tag())
    }

    /// Parses an edge type from an edge key or a bare tag.
    pub fn from_str(s: &str) -> (r: Result<EdgeType, FormatError>)
        ensures
            r == decode_edge_type(s@),
    {
        let tag: &str = match find_char(s, '|') {
            Some(i) => {
                proof {
                    if exists|k: int| is_first_index(s@, '|', k) {
                        let k = choose|k: int| is_first_index(s@, '|', k);
                        lemma_first_index_unique(s@, '|', i as int, k);
                    }
                }
                s.substring_char(0, i)
            },
            None => s,
        };
        assert(tag@ =~= before_first(s@, '|'));
        if str_eq(tag, "session_self") { Ok(EdgeType::SessionSelf) }
        else if str_eq(tag, "session_user") { Ok(EdgeType::SessionUser) }
        else if str_eq(tag, "session_login") { Ok(EdgeType::SessionLogin) }
        else if str_eq(tag, "session_logout") { Ok(EdgeType::SessionLogout) }
        else if str_eq(tag, "usr_self") { Ok(EdgeType::UserSelf) }
        else if str_eq(tag, "usr_personal_number") { Ok(EdgeType::UserPersonalNumber) }
        else if str_eq(tag, "usr_email") { Ok(EdgeType::UserEmail) }
        else if str_eq(tag, "usr_phone") { Ok(EdgeType::UserPhone) }
        else if str_eq(tag, "doc_self") { Ok(EdgeType::DocumentSelf) }
        else if str_eq(tag, "doc_acl_owner") { Ok(EdgeType::DocumentOwner) }
        else if str_eq(tag, "doc_acl_reader") { Ok(EdgeType::DocumentReader) }
        else if str_eq(tag, "doc_location_s3") { Ok(EdgeType::DocumentS3) }
        else if str_eq(tag, "doc_checksum") { Ok(EdgeType::DocumentChecksum) }
        else if str_eq(tag, "doc_signreq") { Ok(EdgeType::DocumentSignRequest) }
        else if str_eq(tag, "doc_signature") { Ok(EdgeType::DocumentSignature) }
        else { Err(FormatError::UnknownKind) }
    }
}


/// Each tag is free of `|` and names its own edge type only.
pub proof fn lemma_edge_tag(t: EdgeType)
    ensures
        lacks_char(edge_tag(t), '|'),
        edge_type_of_tag(edge_tag(t)) == Some(t),
{
    reveal_strlit("session_self");
    reveal_strlit("session_user");
    reveal_strlit("session_login");
    reveal_strlit("session_logout");
    reveal_strlit("usr_self");
    reveal_strlit("usr_personal_number");
    reveal_strlit("usr_email");
    reveal_strlit("usr_phone");
    reveal_strlit("doc_self");
    reveal_strlit("doc_acl_owner");
    reveal_strlit("doc_acl_reader");
    reveal_strlit("doc_location_s3");
    reveal_strlit("doc_checksum");
    reveal_strlit("doc_signreq");
    reveal_strlit("doc_signature");
    assert("session_self"@.len() == 12);
    assert("session_user"@.len() == 12);
    assert("session_login"@.len() == 13);
    assert("session_logout"@.len() == 14);
    assert("usr_self"@.len() == 8);
    assert("usr_personal_number"@.len() == 19);
    assert("usr_email"@.len() == 9);
    assert("usr_phone"@.len() == 9);
    assert("doc_self"@.len() == 8);
    assert("doc_acl_owner"@.len() == 13);
    assert("doc_acl_reader"@.len() == 14);
    assert("doc_location_s3"@.len() == 15);
    assert("doc_checksum"@.len() == 12);
    assert("doc_signreq"@.len() == 11);
    assert("doc_signature"@.len() == 13);
    assert("session_self"@[0] == 's' && "session_self"@[8] == 's');
    assert("session_user"@[0] == 's' && "session_user"@[8] == 'u');
    assert("session_login"@[0] == 's' && "session_logout"@[0] == 's');
    assert("doc_checksum"@[0] == 'd' && "doc_acl_reader"@[0] == 'd');
    assert("doc_acl_owner"@[0] == 'd' && "doc_acl_owner"@[4] == 'a');
    assert("doc_signature"@[0] == 'd' && "doc_signature"@[4] == 's');
    assert("usr_self"@[0] == 'u' && "doc_self"@[0] == 'd');
    assert("usr_email"@[4] == 'e' && "usr_phone"@[4] == 'p');
    match t {
        EdgeType::SessionSelf => assert(edge_type_of_tag(edge_tag(t)) == Some(t)),
        EdgeType::SessionUser => assert(edge_type_of_tag(edge_tag(t)) == Some(t)),
        EdgeType::SessionLogin => assert(edge_type_of_tag(edge_tag(t)) == Some(t)),
        EdgeType::SessionLogout => assert(edge_type_of_tag(edge_tag(t)) == Some(t)),
        EdgeType::UserSelf => assert(edge_type_of_tag(edge_tag(t)) == Some(t)),
        EdgeType::UserPersonalNumber => assert(edge_type_of_tag(edge_tag(t)) == Some(t)),
        EdgeType::UserEmail => assert(edge_type_of_tag(edge_tag(t)) == Some(t)),
        EdgeType::UserPhone => assert(edge_type_of_tag(edge_tag(t)) == Some(t)),
        EdgeType::DocumentSelf => assert(edge_type_of_tag(edge_tag(t)) == Some(t)),
        EdgeType::DocumentOwner => assert(edge_type_of_tag(edge_tag(t)) == Some(t)),
        EdgeType::DocumentReader => assert(edge_type_of_tag(edge_tag(t)) == Some(t)),
        EdgeType::DocumentS3 => assert(edge_type_of_tag(edge_tag(t)) == Some(t)),
        EdgeType::DocumentChecksum => assert(edge_type_of_tag(edge_tag(t)) == Some(t)),
        EdgeType::DocumentSignRequest => assert(edge_type_of_tag(edge_tag(t)) == Some(t)),
        EdgeType::DocumentSignature => assert(edge_type_of_tag(edge_tag(t)) == Some(t)),
    }
}

/// Decoding the encoding of an edge type gives it back.
pub proof fn lemma_edge_type_round_trip(t: EdgeType)
    ensures
        decode_edge_type(edge_tag(t)) == Ok::<EdgeType, FormatError>(t),
{
    lemma_edge_tag(t);
    assert(!exists|i: int| is_first_index(edge_tag(t), '|', i));
}

/// Decoding fails exactly on a tag that no edge type has.
pub proof fn lemma_edge_type_unknown(s: Seq<char>)
    ensures
        decode_edge_type(s) is Err <==> forall|t: EdgeType| edge_tag(t) != before_first(s, '|'),
{
    if decode_edge_type(s) is Ok {
        let t = decode_edge_type(s)->Ok_0;
        assert(edge_tag(t) == before_first(s, '|'));
    } else {
        assert forall|t: EdgeType| edge_tag(t) != before_first(s, '|') by {
            lemma_edge_tag(t);
        }
    }
}

/// The kinds of vertex.
#[derive(Clone, Copy, Debug, PartialEq, Eq, Structural)]
pub enum VertexKind {
    User,
    Session,
    SessionLogin,
    Document,
    DocumentS3,
    ChecksumSha256,
    PersonalNumber,
    Email,
    Phone,
}

/// The prefix that names a vertex kind in a vertex string.
pub open spec fn vertex_tag(k: VertexKind) -> Seq<char> {
    match k {
        VertexKind::User => "User"@,
        VertexKind::Session => "Session"@,
        VertexKind::SessionLogin => "SessionLogin"@,
        VertexKind::Document => "Document"@,
        VertexKind::DocumentS3 => "S3"@,
        VertexKind::ChecksumSha256 => "SHA256"@,
        VertexKind::PersonalNumber => "PersonalNumber"@,
        VertexKind::Email => "Email"@,
        VertexKind::Phone => "Phone"@,
    }
}

/// The vertex kind whose prefix is `s`, if any.
pub open spec fn kind_of_tag(s: Seq<char>) -> Option<VertexKind> {
    if s == "User"@ { Some(VertexKind::User) }
    else if s == "Session"@ { Some(VertexKind::Session) }
    else if s == "SessionLogin"@ { Some(VertexKind::SessionLogin) }
    else if s == "Document"@ { Some(VertexKind::Document) }
    else if s == "S3"@ { Some(VertexKind::DocumentS3) }
    else if s == "SHA256"@ { Some(VertexKind::ChecksumSha256) }
    else if s == "PersonalNumber"@ { Some(VertexKind::PersonalNumber) }
    else if s == "Email"@ { Some(VertexKind::Email) }
    else if s == "Phone"@ { Some(VertexKind::Phone) }
    else { None }
}

/// The canonical string of a vertex: `<Kind>-<identifier>`.
pub open spec fn encode_vertex(k: VertexKind, id: Seq<char>) -> Seq<char> {
    vertex_tag(k) + seq!['-'] + id
}

/// Decoding a vertex string: the kind is the part before the first `-`, the
/// identifier all that follows it, dashes included.
pub open spec fn decode_vertex(s: Seq<char>) -> Result<(VertexKind, Seq<char>), FormatError> {
    if exists|i: int| is_first_index(s, '-', i) {
        let i = choose|i: int| is_first_index(s, '-', i);
        match kind_of_tag(s.take(i)) {
            Some(k) => Ok((k, s.skip(i + 1))),
            None => Err(FormatError::UnknownKind),
        }
    } else {
        Err(FormatError::MissingSeparator)
    }
}

/// The kind of the vertex that a string names, if it decodes.
pub open spec fn kind_of_vertex_string(s: Seq<char>) -> Option<VertexKind> {
    match decode_vertex(s) {
        Ok(v) => Some(v.0),
        Err(_) => None,
    }
}

impl VertexKind {
    /// The prefix of this kind.
    pub fn tag(&self) -> (r: &'static str)
        ensures
            r@ == vertex_tag(*self),
    {
        match self {
            VertexKind::User => "User",
            VertexKind::Session => "Session",
            VertexKind::SessionLogin => "SessionLogin",
            VertexKind::Document => "Document",
            VertexKind::DocumentS3 => "S3",
            VertexKind::ChecksumSha256 => "SHA256",
            VertexKind::PersonalNumber => "PersonalNumber",
            VertexKind::Email => "Email",
            VertexKind::Phone => "Phone",
        }
    }
}

/// A typed graph node; each kind wraps a free-form identifier.
#[derive(Debug, PartialEq, Eq)]
pub enum Vertex {
    User(String),
    Session(String),
    SessionLogin(String),
    Document(String),
    DocumentS3(String),
    ChecksumSha256(String),
    PersonalNumber(String),
    Email(String),
    Phone(String),
}

impl View for Vertex {
    type V = (VertexKind, Seq<char>);

    open spec fn view(&self) -> (VertexKind, Seq<char>) {
        match self {
            Vertex::User(id) => (VertexKind::User, id@),
            Vertex::Session(id) => (VertexKind::Session, id@),
            Vertex::SessionLogin(id) => (VertexKind::SessionLogin, id@),
            Vertex::Document(id) => (VertexKind::Document, id@),
            Vertex::DocumentS3(id) => (VertexKind::DocumentS3, id@),
            Vertex::ChecksumSha256(id) => (VertexKind::ChecksumSha256, id@),
            Vertex::PersonalNumber(id) => (VertexKind::PersonalNumber, id@),
            Vertex::Email(id) => (VertexKind::Email, id@),
            Vertex::Phone(id) => (VertexKind::Phone, id@),
        }
    }
}

impl Vertex {
    /// The vertex of the given kind and identifier.
    pub fn new(kind: VertexKind, id: String) -> (r: Vertex)
        ensures
            r@ == (kind, id@),
    {
        match kind {
            VertexKind::User => Vertex::User(id),
            VertexKind::Session => Vertex::Session(id),
            VertexKind::SessionLogin => Vertex::SessionLogin(id),
            VertexKind::Document => Vertex::Document(id),
            VertexKind::DocumentS3 => Vertex::DocumentS3(id),
            VertexKind::ChecksumSha256 => Vertex::ChecksumSha256(id),
            VertexKind::PersonalNumber => Vertex::PersonalNumber(id),
            VertexKind::Email => Vertex::Email(id),
            VertexKind::Phone => Vertex::Phone(id),
        }
    }

    /// The kind of this vertex.
    pub fn kind(&self) -> (r: VertexKind)
        ensures
            r == self@.0,
    {
        match self {
            Vertex::User(_) => VertexKind::User,
            Vertex::Session(_) => VertexKind::Session,
            Vertex::SessionLogin(_) => VertexKind::SessionLogin,
            Vertex::Document(_) => VertexKind::Document,
            Vertex::DocumentS3(_) => VertexKind::DocumentS3,
            Vertex::ChecksumSha256(_) => VertexKind::ChecksumSha256,
            Vertex::PersonalNumber(_) => VertexKind::PersonalNumber,
            Vertex::Email(_) => VertexKind::Email,
            Vertex::Phone(_) => VertexKind::Phone,
        }
    }

    /// The identifier of this vertex.
    pub fn id(&self) -> (r: &String)
        ensures
            r@ == self@.1,
    {
        match self {
            Vertex::User(id) => id,
            Vertex::Session(id) => id,
            Vertex::SessionLogin(id) => id,
            Vertex::Document(id) => id,
            Vertex::DocumentS3(id) => id,
            Vertex::ChecksumSha256(id) => id,
            Vertex::PersonalNumber(id) => id,
            Vertex::Email(id) => id,
            Vertex::Phone(id) => id,
        }
    }

    /// The canonical string of this vertex.
    pub fn to_string(&self) -> (r: String)
        ensures
            r@ == encode_vertex(self@.0, self@.1),
    {
        let mut r = String::from_str(self.kind().tag());
        r.append("-");
        r.append(self.id().as_str());
        proof {
            reveal_strlit("-");
        }
        r
    }

    /// Parses a vertex from its canonical string.
    pub fn from_str(s: &str) -> (r: Result<Vertex, FormatError>)
        ensures
            match r {
                Ok(v) => decode_vertex(s@) == Ok::<(VertexKind, Seq<char>), FormatError>(v@),
                Err(e) => decode_vertex(s@) == Err::<(VertexKind, Seq<char>), FormatError>(e),
            },
    {
        let i = match find_char(s, '-') {
            Some(i) => i,
            None => {
                return Err(FormatError::MissingSeparator);
            },
        };
        proof {
            let k = choose|k: int| is_first_index(s@, '-', k);
            lemma_first_index_unique(s@, '-', i as int, k);
        }
        let n = s.unicode_len();
        let kind_str = s.substring_char(0, i);
        let rest = s.substring_char(i + 1, n);
        assert(kind_str@ =~= s@.take(i as int));
        assert(rest@ =~= s@.skip(i + 1));
        let kind = {
        if str_eq(kind_str, "User") { Some(VertexKind::User) }
        else if str_eq(kind_str, "Session") { Some(VertexKind::Session) }
        else if str_eq(kind_str, "SessionLogin") { Some(VertexKind::SessionLogin) }
        else if str_eq(kind_str, "Document") { Some(VertexKind::Document) }
        else if str_eq(kind_str, "S3") { Some(VertexKind::DocumentS3) }
        else if str_eq(kind_str, "SHA256") { Some(VertexKind::ChecksumSha256) }
        else if str_eq(kind_str, "PersonalNumber") { Some(VertexKind::PersonalNumber) }
        else if str_eq(kind_str, "Email") { Some(VertexKind::Email) }
        else if str_eq(kind_str, "Phone") { Some(VertexKind::Phone) }
        else { None }
        };
        match kind {
            Some(k) => Ok(Vertex::new(k, String::from_str(rest))),
            None => Err(FormatError::UnknownKind),
        }
    }
}

/// The kind of the vertex that `s` names, if `s` decodes.
pub fn vertex_kind_of(s: &str) -> (r: Option<VertexKind>)
    ensures
        r == kind_of_vertex_string(s@),
{
    match Vertex::from_str(s) {
        Ok(v) => Some(v.kind()),
        Err(_) => None,
    }
}

/// The session state an edge carries, if its payload is one.
pub open spec fn session_payload(e: Edge) -> Option<SessionData> {
    match e.data {
        Some(VertexData::SessionData(d)) => Some(d),
        _ => None,
    }
}

/// The profile an edge carries, if its payload is one.
pub open spec fn user_payload(e: Edge) -> Option<UserData> {
    match e.data {
        Some(VertexData::UserData(d)) => Some(d),
        _ => None,
    }
}

/// The kind of an edge's destination, if its string decodes.
pub open spec fn destination_kind(e: Edge) -> Option<VertexKind> {
    kind_of_vertex_string(e.vertex_b@)
}

/// Each vertex prefix is free of `-` and names its own kind only.
proof fn lemma_vertex_tag(k: VertexKind)
    ensures
        lacks_char(vertex_tag(k), '-'),
        kind_of_tag(vertex_tag(k)) == Some(k),
{
    reveal_strlit("User");
    assert("User"@.len() == 4);
    reveal_strlit("Session");
    assert("Session"@.len() == 7);
    reveal_strlit("SessionLogin");
    assert("SessionLogin"@.len() == 12);
    reveal_strlit("Document");
    assert("Document"@.len() == 8);
    reveal_strlit("S3");
    assert("S3"@.len() == 2);
    reveal_strlit("SHA256");
    assert("SHA256"@.len() == 6);
    reveal_strlit("PersonalNumber");
    assert("PersonalNumber"@.len() == 14);
    reveal_strlit("Email");
    assert("Email"@.len() == 5);
    reveal_strlit("Phone");
    assert("Phone"@.len() == 5);
    assert("Email"@[0] == 'E' && "Phone"@[0] == 'P');
    match k {
        VertexKind::User => assert(kind_of_tag(vertex_tag(k)) == Some(k)),
        VertexKind::Session => assert(kind_of_tag(vertex_tag(k)) == Some(k)),
        VertexKind::SessionLogin => assert(kind_of_tag(vertex_tag(k)) == Some(k)),
        VertexKind::Document => assert(kind_of_tag(vertex_tag(k)) == Some(k)),
        VertexKind::DocumentS3 => assert(kind_of_tag(vertex_tag(k)) == Some(k)),
        VertexKind::ChecksumSha256 => assert(kind_of_tag(vertex_tag(k)) == Some(k)),
        VertexKind::PersonalNumber => assert(kind_of_tag(vertex_tag(k)) == Some(k)),
        VertexKind::Email => assert(kind_of_tag(vertex_tag(k)) == Some(k)),
        VertexKind::Phone => assert(kind_of_tag(vertex_tag(k)) == Some(k)),
    }
}

/// Decoding the canonical string of a vertex gives back its kind and
/// identifier, whatever the identifier holds (dashes, dots, any text).
pub proof fn lemma_vertex_round_trip(k: VertexKind, id: Seq<char>)
    ensures
        decode_vertex(encode_vertex(k, id)) == Ok::<(VertexKind, Seq<char>), FormatError>((k, id)),
{
    lemma_vertex_tag(k);
    lemma_first_index_after(vertex_tag(k), '-', id);
    let s = encode_vertex(k, id);
    let i = choose|i: int| is_first_index(s, '-', i);
    lemma_first_index_unique(s, '-', i, vertex_tag(k).len() as int);
}

/// A copy of an optional string.
pub fn clone_opt(o: &Option<String>) -> (r: Option<String>)
    ensures
        r == *o,
{
    match o {
        Some(s) => Some(s.clone()),
        None => None,
    }
}

/// A stored edge: source and destination vertex strings, the composite edge
/// key `<tag>|<source>|<destination>`, and an optional payload.
#[derive(Debug, PartialEq, Eq)]
pub struct Edge {
    pub vertex_a: String,
    pub vertex_b: String,
    pub edge: String,
    pub data: Option<VertexData>,
}

impl Clone for Edge {
    fn clone(&self) -> (r: Self)
        ensures
            r == *self,
    {
        Edge {
            vertex_a: self.vertex_a.clone(),
            vertex_b: self.vertex_b.clone(),
            edge: self.edge.clone(),
            data: match &self.data {
                Some(d) => Some(d.clone()),
                None => None,
            },
        }
    }
}

/// The payload an edge may carry about its destination vertex.
#[derive(Debug, PartialEq, Eq)]
pub enum VertexData {
    S3Document(S3Document),
    String(String),
    UserData(UserData),
    SessionData(SessionData),
}

impl Clone for VertexData {
    fn clone(&self) -> (r: Self)
        ensures
            r == *self,
    {
        match self {
            VertexData::S3Document(d) => VertexData::S3Document(d.clone()),
            VertexData::String(d) => VertexData::String(d.clone()),
            VertexData::UserData(d) => VertexData::UserData(d.clone()),
            VertexData::SessionData(d) => VertexData::SessionData(d.clone()),
        }
    }
}

/// Where a document's bytes are kept.
#[derive(Debug, PartialEq, Eq)]
pub struct S3Document {
    pub bucket: String,
    pub key: String,
}

impl Clone for S3Document {
    fn clone(&self) -> (r: Self)
        ensures
            r == *self,
    {
        S3Document { bucket: self.bucket.clone(), key: self.key.clone() }
    }
}

/// A user's profile, carried by the user's self edge.
#[derive(Debug, PartialEq, Eq)]
pub struct UserData {
    pub name: Option<String>,
    pub given_name: Option<String>,
    pub surname: Option<String>,
}

impl Clone for UserData {
    fn clone(&self) -> (r: Self)
        ensures
            r == *self,
    {
        UserData {
            name: clone_opt(&self.name),
            given_name: clone_opt(&self.given_name),
            surname: clone_opt(&self.surname),
        }
    }
}

/// The state a session edge records.
#[derive(Debug, PartialEq, Eq)]
pub struct SessionData {
    pub created: Option<String>,
    pub session_login_id: Option<String>,
    pub login: Option<String>,
    pub logout: Option<String>,
    pub auth_data: Option<String>,
}

impl Clone for SessionData {
    fn clone(&self) -> (r: Self)
        ensures
            r == *self,
    {
        SessionData {
            created: clone_opt(&self.created),
            session_login_id: clone_opt(&self.session_login_id),
            login: clone_opt(&self.login),
            logout: clone_opt(&self.logout),
            auth_data: clone_opt(&self.auth_data),
        }
    }
}

/// An organisation that may own or sign documents.
#[derive(Debug, PartialEq, Eq)]
pub struct Organisation {
    pub id: String,
    pub org_no: String,
    pub name: String,
}

/// A party that may own or sign a document.
#[derive(Debug, PartialEq, Eq)]
pub enum LegalEntity {
    Org(Organisation),
    User(User),
}

/// One logical login session as reconstructed from a session's edges.
#[derive(Debug, PartialEq, Eq)]
pub struct Session {
    pub session_id: String,
    pub created: Option<String>,
    pub session_login_id: Option<String>,
    pub login: Option<String>,
    pub logout: Option<String>,
    pub auth_data: Option<String>,
    pub user: Option<User>,
}

impl Clone for Session {
    fn clone(&self) -> (r: Self)
        ensures
            r == *self,
    {
        Session {
            session_id: self.session_id.clone(),
            created: clone_opt(&self.created),
            session_login_id: clone_opt(&self.session_login_id),
            login: clone_opt(&self.login),
            logout: clone_opt(&self.logout),
            auth_data: clone_opt(&self.auth_data),
            user: match &self.user {
                Some(u) => Some(u.clone()),
                None => None,
            },
        }
    }
}

impl Session {
    /// The session state fields of this session.
    pub fn session_data(&self) -> (r: SessionData)
        ensures
            r == (SessionData {
                created: self.created,
                session_login_id: self.session_login_id,
                login: self.login,
                logout: self.logout,
                auth_data: self.auth_data,
            }),
    {
        SessionData {
            created: clone_opt(&self.created),
            session_login_id: clone_opt(&self.session_login_id),
            login: clone_opt(&self.login),
            logout: clone_opt(&self.logout),
            auth_data: clone_opt(&self.auth_data),
        }
    }
}

/// A user, assembled from the user vertex's outgoing edges.
#[derive(Debug, PartialEq, Eq)]
pub struct User {
    pub user_id: String,
    pub name: Option<String>,
    pub given_name: Option<String>,
    pub surname: Option<String>,
    pub personal_number: Option<String>,
    pub email: Option<String>,
    pub phone: Option<String>,
}

impl Clone for User {
    fn clone(&self) -> (r: Self)
        ensures
            r == *self,
    {
        User {
            user_id: self.user_id.clone(),
            name: clone_opt(&self.name),
            given_name: clone_opt(&self.given_name),
            surname: clone_opt(&self.surname),
            personal_number: clone_opt(&self.personal_number),
            email: clone_opt(&self.email),
            phone: clone_opt(&self.phone),
        }
    }
}

/// A document and the parties related to it.
#[derive(Debug, PartialEq, Eq)]
pub struct Document {
    pub doc_id: String,
    pub owners: Vec<LegalEntity>,
    pub signatures: Vec<LegalEntity>,
    pub signature_reqs: Vec<LegalEntity>,
}

/// A reference to a document a user owns or may read.
#[derive(Debug, PartialEq, Eq)]
pub struct DocumentReference {
    pub doc_id: String,
}

/// A string that decodes is the encoding of what it decodes to.
pub proof fn lemma_decode_encode(s: Seq<char>)
    requires
        decode_vertex(s) is Ok,
    ensures
        encode_vertex(decode_vertex(s)->Ok_0.0, decode_vertex(s)->Ok_0.1) == s,
{
    let i = choose|i: int| is_first_index(s, '-', i);
    let k = decode_vertex(s)->Ok_0.0;
    assert(vertex_tag(k) == s.take(i));
    assert(s =~= s.take(i) + seq!['-'] + s.skip(i + 1));
}

/// The tags of the user namespace start with `usr_`.
pub proof fn lemma_user_tag_prefix(t: EdgeType)
    requires
        t == EdgeType::UserSelf || t == EdgeType::UserPersonalNumber || t == EdgeType::UserEmail
            || t == EdgeType::UserPhone,
    ensures
        "usr_"@.is_prefix_of(edge_tag(t)),
{
    reveal_strlit("usr_");
    reveal_strlit("usr_self");
    reveal_strlit("usr_personal_number");
    reveal_strlit("usr_email");
    reveal_strlit("usr_phone");
    assert("usr_"@ =~= edge_tag(t).take(4));
}

} // verus!
