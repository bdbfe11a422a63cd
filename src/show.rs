//! Text forms of the domain values, for logs and diagnostics.

use vstd::prelude::*;
use vstd::string::*;
use crate::domain::{DocumentReference, S3Document, Session, SessionData, User, UserData};
use crate::users::opt_view;

verus! {

/// `, <name>: Some("<value>")`, or `, <name>: None`.
pub open spec fn field_text(name: Seq<char>, v: Option<Seq<char>>) -> Seq<char> {
    match v {
        Some(s) => ", "@ + name + ": Some(\""@ + s + "\")"@,
        None => ", "@ + name + ": None"@,
    }
}

/// Appends the text of one optional field.
fn push_field(out: &mut String, name: &str, v: Option<&String>)
    ensures
        final(out)@ == old(out)@ + field_text(
            name@,
            match v {
                Some(s) => Some(s@),
                None => None,
            },
        ),
{
    out.append(", ");
    out.append(name);
    match v {
        Some(s) => {
            out.append(": Some(\"");
            out.append(s.as_str());
            out.append("\")");
        },
        None => {
            out.append(": None");
        },
    }
}

/// The text form of a `S3Document`.
pub open spec fn s3_document_text(v: S3Document) -> Seq<char> {
    "S3Document{"@
        + field_text("bucket"@, Some(v.bucket@))
        + field_text("key"@, Some(v.key@))
        + "}"@
}

/// The text form of a `UserData`.
pub open spec fn user_data_text(v: UserData) -> Seq<char> {
    "UserData{"@
        + field_text("name"@, opt_view(v.name))
        + field_text("given_name"@, opt_view(v.given_name))
        + field_text("surname"@, opt_view(v.surname))
        + "}"@
}

/// The text form of a `SessionData`.
pub open spec fn session_data_text(v: SessionData) -> Seq<char> {
    "SessionData{"@
        + field_text("created"@, opt_view(v.created))
        + field_text("login"@, opt_view(v.login))
        + field_text("logout"@, opt_view(v.logout))
        + field_text("auth_data"@, opt_view(v.auth_data))
        + "}"@
}

/// The text form of a `User`.
pub open spec fn user_text(v: User) -> Seq<char> {
    "User{user_id: \""@
        + v.user_id@
        + "\""@
        + field_text("name"@, opt_view(v.name))
        + field_text("given_name"@, opt_view(v.given_name))
        + field_text("surname"@, opt_view(v.surname))
        + field_text("personal_number"@, opt_view(v.personal_number))
        + field_text("email"@, opt_view(v.email))
        + field_text("phone"@, opt_view(v.phone))
        + "}"@
}

/// The text form of a `DocumentReference`.
pub open spec fn document_reference_text(v: DocumentReference) -> Seq<char> {
    "DocumentReference{doc_id: \""@
        + v.doc_id@
        + "\""@
        + "}"@
}

/// The text form of a `Session`.
pub open spec fn session_text(v: Session) -> Seq<char> {
    "Session{session_id: \""@
        + v.session_id@
        + "\""@
        + field_text("created"@, opt_view(v.created))
        + field_text("login"@, opt_view(v.login))
        + field_text("logout"@, opt_view(v.logout))
        + field_text("auth_data"@, opt_view(v.auth_data))
        + user_field_text(v.user)
        + "}"@
}

/// The text of a session's user field.
pub open spec fn user_field_text(u: Option<User>) -> Seq<char> {
    match u {
        Some(x) => field_text("user"@, Some(user_text(x))),
        None => field_text("user"@, None),
    }
}

impl S3Document {
    /// The text form of this value.
    pub fn to_string(&self) -> (r: String)
        ensures
            r@ == s3_document_text(*self),
    {
        let mut r = String::from_str("S3Document{");
        push_field(&mut r, "bucket", Some(&self.bucket));
        push_field(&mut r, "key", Some(&self.key));
        r.append("}");
        r
    }
}

impl UserData {
    /// The text form of this value.
    pub fn to_string(&self) -> (r: String)
        ensures
            r@ == user_data_text(*self),
    {
        let mut r = String::from_str("UserData{");
        push_field(&mut r, "name", self.name.as_ref());
        push_field(&mut r, "given_name", self.given_name.as_ref());
        push_field(&mut r, "surname", self.surname.as_ref());
        r.append("}");
        r
    }
}

impl SessionData {
    /// The text form of this value.
    pub fn to_string(&self) -> (r: String)
        ensures
            r@ == session_data_text(*self),
    {
        let mut r = String::from_str("SessionData{");
        push_field(&mut r, "created", self.created.as_ref());
        push_field(&mut r, "login", self.login.as_ref());
        push_field(&mut r, "logout", self.logout.as_ref());
        push_field(&mut r, "auth_data", self.auth_data.as_ref());
        r.append("}");
        r
    }
}

impl User {
    /// The text form of this value.
    pub fn to_string(&self) -> (r: String)
        ensures
            r@ == user_text(*self),
    {
        let mut r = String::from_str("User{user_id: \"");
        r.append(self.user_id.as_str());
        r.append("\"");
        push_field(&mut r, "name", self.name.as_ref());
        push_field(&mut r, "given_name", self.given_name.as_ref());
        push_field(&mut r, "surname", self.surname.as_ref());
        push_field(&mut r, "personal_number", self.personal_number.as_ref());
        push_field(&mut r, "email", self.email.as_ref());
        push_field(&mut r, "phone", self.phone.as_ref());
        r.append("}");
        r
    }
}

impl DocumentReference {
    /// The text form of this value.
    pub fn to_string(&self) -> (r: String)
        ensures
            r@ == document_reference_text(*self),
    {
        let mut r = String::from_str("DocumentReference{doc_id: \"");
        r.append(self.doc_id.as_str());
        r.append("\"");
        r.append("}");
        r
    }
}

impl Session {
    /// The text form of this value.
    pub fn to_string(&self) -> (r: String)
        ensures
            r@ == session_text(*self),
    {
        let mut r = String::from_str("Session{session_id: \"");
        r.append(self.session_id.as_str());
        r.append("\"");
        push_field(&mut r, "created", self.created.as_ref());
        push_field(&mut r, "login", self.login.as_ref());
        push_field(&mut r, "logout", self.logout.as_ref());
        push_field(&mut r, "auth_data", self.auth_data.as_ref());
        match &self.user {
            Some(u) => {
                let t = u.to_string();
                push_field(&mut r, "user", Some(&t));
            },
            None => push_field(&mut r, "user", None),
        }
        r.append("}");
        r
    }
}

} // verus!
