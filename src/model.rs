//! Stored entities: accounts, tasks with their notes, and the classification
//! taxonomy. Times are milliseconds since the Unix epoch.
use vstd::prelude::*;
use crate::patch::CtiSelection;

verus! {

/// Relies on uuid's `Uuid::new_v4` for a fresh random identifier, written in
/// its hyphenated form, which has 36 characters.
#[verifier::external_body]
pub(crate) fn fresh_id() -> (r: String)
    ensures
        r@.len() == 36,
{
    uuid::Uuid::new_v4().to_string()
}

/// Relies on chrono's `Utc::now`: the current time in milliseconds since the
/// Unix epoch.
#[verifier::external_body]
pub(crate) fn now_millis() -> (r: i64) {
    chrono::Utc::now().timestamp_millis()
}

pub open spec fn user_role() -> Seq<char> {
    "user"@
}

pub open spec fn admin_role() -> Seq<char> {
    "admin"@
}

/// An account. `password_hash` holds the salted digest, never the password.
#[derive(Clone, Debug)]
pub struct User {
    pub id: String,
    pub email: String,
    pub username: String,
    pub password_hash: String,
    pub role: String,
    pub created_at: i64,
    pub updated_at: i64,
}

impl User {
    /// A new account with a fresh identifier and the ordinary role.
    pub fn new(email: String, username: String, password_hash: String) -> (r: User)
        ensures
            r.id@.len() == 36,
            r.email == email,
            r.username == username,
            r.password_hash == password_hash,
            r.role@ == user_role(),
            r.created_at == r.updated_at,
    {
        let now = now_millis();
        User {
            id: fresh_id(),
            email,
            username,
            password_hash,
            role: "user".to_string(),
            created_at: now,
            updated_at: now,
        }
    }
}

/// The shown part of an account.
pub open spec fn public_view(u: User) -> UserPublic {
    UserPublic {
        id: u.id,
        email: u.email,
        username: u.username,
        role: u.role,
        created_at: u.created_at,
    }
}

/// What of an account may be shown: everything but the password hash.
#[derive(Debug)]
pub struct UserPublic {
    pub id: String,
    pub email: String,
    pub username: String,
    pub role: String,
    pub created_at: i64,
}

impl From<User> for UserPublic {
    fn from(u: User) -> (r: UserPublic) {
        UserPublic {
            id: u.id,
            email: u.email,
            username: u.username,
            role: u.role,
            created_at: u.created_at,
        }
    }
}

impl vstd::std_specs::convert::FromSpecImpl<User> for UserPublic {
    open spec fn obeys_from_spec() -> bool {
        true
    }

    open spec fn from_spec(u: User) -> UserPublic {
        public_view(u)
    }
}

/// A note on a task, stamped with the identifier of the account that wrote it.
#[derive(Clone, Debug)]
pub struct TaskNote {
    pub id: String,
    pub note: String,
    pub author: String,
    pub created_at: i64,
}

impl TaskNote {
    pub fn new(note: String, author: String) -> (r: TaskNote)
        ensures
            r.id@.len() == 36,
            r.note == note,
            r.author == author,
    {
        TaskNote { id: fresh_id(), note, author, created_at: now_millis() }
    }
}

pub open spec fn initial_status() -> Seq<char> {
    "todo"@
}

/// A task.
#[derive(Clone, Debug)]
pub struct Task {
    pub id: String,
    pub title: String,
    pub description: String,
    pub status: String,
    pub notes: Vec<TaskNote>,
    pub assignee_id: Option<String>,
    pub cti: Option<CtiSelection>,
    pub created_at: i64,
    pub updated_at: i64,
}

impl Task {
    /// A new task, to do, with no notes, assignee or classification.
    pub fn new(title: String, description: String) -> (r: Task)
        ensures
            r.id@.len() == 36,
            r.title == title,
            r.description == description,
            r.status@ == initial_status(),
            r.notes@.len() == 0,
            r.assignee_id is None,
            r.cti is None,
            r.created_at == r.updated_at,
    {
        let now = now_millis();
        Task {
            id: fresh_id(),
            title,
            description,
            status: "todo".to_string(),
            notes: Vec::new(),
            assignee_id: None,
            cti: None,
            created_at: now,
            updated_at: now,
        }
    }
}

/// A classification category.
#[derive(Debug)]
pub struct Category {
    pub id: String,
    pub name: String,
    pub created_at: i64,
}

impl Category {
    pub fn new(name: String) -> (r: Category)
        ensures
            r.id@.len() == 36,
            r.name == name,
    {
        Category { id: fresh_id(), name, created_at: now_millis() }
    }
}

/// A classification type within a category.
#[derive(Debug)]
pub struct CtiType {
    pub id: String,
    pub name: String,
    pub category_id: String,
    pub created_at: i64,
}

impl CtiType {
    pub fn new(name: String, category_id: String) -> (r: CtiType)
        ensures
            r.id@.len() == 36,
            r.name == name,
            r.category_id == category_id,
    {
        CtiType { id: fresh_id(), name, category_id, created_at: now_millis() }
    }
}

/// A classification item within a type.
#[derive(Debug)]
pub struct CtiItem {
    pub id: String,
    pub name: String,
    pub type_id: String,
    pub created_at: i64,
}

impl CtiItem {
    pub fn new(name: String, type_id: String) -> (r: CtiItem)
        ensures
            r.id@.len() == 36,
            r.name == name,
            r.type_id == type_id,
    {
        CtiItem { id: fresh_id(), name, type_id, created_at: now_millis() }
    }
}

} // verus!
