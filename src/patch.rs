//! Decoding of request bodies, and the three states of a clearable field in
//! a partial update.
use vstd::prelude::*;
use crate::error::{AppError, AppResult};
use crate::json::{find_entry, lookup, lookup_from, Json};

verus! {

/// How a partial update treats one clearable field.
#[derive(Debug, PartialEq)]
pub enum Patch<T> {
    /// The key was not in the request: leave the field as it is.
    Absent,
    /// The key was there with `null`: clear the field.
    Cleared,
    /// The key was there with a value: store that value.
    SetTo(T),
}

/// Which category, type and item a task is classified under.
#[derive(Clone, Debug, PartialEq)]
pub struct CtiSelection {
    pub category_id: String,
    pub type_id: String,
    pub item_id: String,
}

impl CtiSelection {
    /// A copy of this selection.
    pub fn duplicate(&self) -> (r: CtiSelection)
        ensures
            r == *self,
    {
        CtiSelection {
            category_id: self.category_id.clone(),
            type_id: self.type_id.clone(),
            item_id: self.item_id.clone(),
        }
    }
}

pub open spec fn field_message(key: Seq<char>) -> Seq<char> {
    "invalid value for field '"@ + key + "'"@
}

pub open spec fn missing_message(key: Seq<char>) -> Seq<char> {
    "missing field '"@ + key + "'"@
}

pub open spec fn not_object_message() -> Seq<char> {
    "request body must be a JSON object"@
}

/// `r` is the outcome `s` describes: the same value, or a bad request with
/// the same message.
pub open spec fn decoded<T>(r: AppResult<T>, s: Result<T, Seq<char>>) -> bool {
    match (r, s) {
        (Ok(x), Ok(y)) => x == y,
        (Err(AppError::BadRequest(m)), Err(n)) => m@ == n,
        _ => false,
    }
}

/// A text field that may be left out: absent or `null` gives `None`.
pub open spec fn plain_text(es: Seq<(String, Json)>, key: Seq<char>) -> Result<
    Option<String>,
    Seq<char>,
> {
    match lookup(es, key) {
        None => Ok(None),
        Some(Json::Null) => Ok(None),
        Some(Json::Str(s)) => Ok(Some(s)),
        Some(_) => Err(field_message(key)),
    }
}

/// A text field that must be present.
pub open spec fn required_text(es: Seq<(String, Json)>, key: Seq<char>) -> Result<
    String,
    Seq<char>,
> {
    match lookup(es, key) {
        None => Err(missing_message(key)),
        Some(Json::Str(s)) => Ok(s),
        Some(_) => Err(field_message(key)),
    }
}

/// A clearable text field: absent, `null`, or a string.
pub open spec fn nullable_text(es: Seq<(String, Json)>, key: Seq<char>) -> Result<
    Patch<String>,
    Seq<char>,
> {
    match lookup(es, key) {
        None => Ok(Patch::Absent),
        Some(Json::Null) => Ok(Patch::Cleared),
        Some(Json::Str(s)) => Ok(Patch::SetTo(s)),
        Some(_) => Err(field_message(key)),
    }
}

/// A classification: an object whose three keys hold strings.
pub open spec fn selection_of(v: Json) -> Option<CtiSelection> {
    match v {
        Json::Object(es) => match (
            lookup(es@, "category_id"@),
            lookup(es@, "type_id"@),
            lookup(es@, "item_id"@),
        ) {
            (Some(Json::Str(c)), Some(Json::Str(t)), Some(Json::Str(i))) => Some(
                CtiSelection { category_id: c, type_id: t, item_id: i },
            ),
            _ => None,
        },
        _ => None,
    }
}

/// A classification that may be left out: absent or `null` gives `None`.
pub open spec fn plain_selection(es: Seq<(String, Json)>, key: Seq<char>) -> Result<
    Option<CtiSelection>,
    Seq<char>,
> {
    match lookup(es, key) {
        None => Ok(None),
        Some(Json::Null) => Ok(None),
        Some(v) => match selection_of(v) {
            Some(c) => Ok(Some(c)),
            None => Err(field_message(key)),
        },
    }
}

/// A clearable classification: absent, `null`, or a classification.
pub open spec fn nullable_selection(es: Seq<(String, Json)>, key: Seq<char>) -> Result<
    Patch<CtiSelection>,
    Seq<char>,
> {
    match lookup(es, key) {
        None => Ok(Patch::Absent),
        Some(Json::Null) => Ok(Patch::Cleared),
        Some(v) => match selection_of(v) {
            Some(c) => Ok(Patch::SetTo(c)),
            None => Err(field_message(key)),
        },
    }
}

fn bad_field(key: &str) -> (r: AppError)
    ensures
        r matches AppError::BadRequest(m) && m@ == field_message(key@),
{
    let mut m = "invalid value for field '".to_string();
    m.append(key);
    m.append("'");
    proof {
        assert(m@ =~= field_message(key@));
    }
    AppError::BadRequest(m)
}

fn missing_field(key: &str) -> (r: AppError)
    ensures
        r matches AppError::BadRequest(m) && m@ == missing_message(key@),
{
    let mut m = "missing field '".to_string();
    m.append(key);
    m.append("'");
    proof {
        assert(m@ =~= missing_message(key@));
    }
    AppError::BadRequest(m)
}

fn not_object() -> (r: AppError)
    ensures
        r matches AppError::BadRequest(m) && m@ == not_object_message(),
{
    AppError::BadRequest("request body must be a JSON object".to_string())
}

pub fn text_field(es: &Vec<(String, Json)>, key: &str) -> (r: AppResult<Option<String>>)
    ensures
        decoded(r, plain_text(es@, key@)),
{
    match find_entry(es, key) {
        None => Ok(None),
        Some(Json::Null) => Ok(None),
        Some(Json::Str(s)) => Ok(Some(s.clone())),
        Some(_) => Err(bad_field(key)),
    }
}

pub fn required_text_field(es: &Vec<(String, Json)>, key: &str) -> (r: AppResult<String>)
    ensures
        decoded(r, required_text(es@, key@)),
{
    match find_entry(es, key) {
        None => Err(missing_field(key)),
        Some(Json::Str(s)) => Ok(s.clone()),
        Some(_) => Err(bad_field(key)),
    }
}

pub fn nullable_text_field(es: &Vec<(String, Json)>, key: &str) -> (r: AppResult<Patch<String>>)
    ensures
        decoded(r, nullable_text(es@, key@)),
{
    match find_entry(es, key) {
        None => Ok(Patch::Absent),
        Some(Json::Null) => Ok(Patch::Cleared),
        Some(Json::Str(s)) => Ok(Patch::SetTo(s.clone())),
        Some(_) => Err(bad_field(key)),
    }
}

fn text_at(es: &Vec<(String, Json)>, key: &str) -> (r: Option<String>)
    ensures
        match r {
            Some(s) => lookup(es@, key@) == Some(Json::Str(s)),
            None => !(lookup(es@, key@) matches Some(Json::Str(_))),
        },
{
    match find_entry(es, key) {
        Some(Json::Str(s)) => Some(s.clone()),
        _ => None,
    }
}

pub fn selection(v: &Json) -> (r: Option<CtiSelection>)
    ensures
        r == selection_of(*v),
{
    match v {
        Json::Object(es) => {
            let c = text_at(es, "category_id");
            let t = text_at(es, "type_id");
            let i = text_at(es, "item_id");
            match (c, t, i) {
                (Some(c), Some(t), Some(i)) => Some(
                    CtiSelection { category_id: c, type_id: t, item_id: i },
                ),
                _ => None,
            }
        },
        _ => None,
    }
}

pub fn selection_field(es: &Vec<(String, Json)>, key: &str) -> (r: AppResult<Option<CtiSelection>>)
    ensures
        decoded(r, plain_selection(es@, key@)),
{
    match find_entry(es, key) {
        None => Ok(None),
        Some(Json::Null) => Ok(None),
        Some(v) => match selection(v) {
            Some(c) => Ok(Some(c)),
            None => Err(bad_field(key)),
        },
    }
}

pub fn nullable_selection_field(es: &Vec<(String, Json)>, key: &str) -> (r: AppResult<
    Patch<CtiSelection>,
>)
    ensures
        decoded(r, nullable_selection(es@, key@)),
{
    match find_entry(es, key) {
        None => Ok(Patch::Absent),
        Some(Json::Null) => Ok(Patch::Cleared),
        Some(v) => match selection(v) {
            Some(c) => Ok(Patch::SetTo(c)),
            None => Err(bad_field(key)),
        },
    }
}

/// A partial update of a task. Title, description and status are replaced when
/// given; assignee and classification may also be cleared.
#[derive(Debug)]
pub struct UpdateTaskRequest {
    pub title: Option<String>,
    pub description: Option<String>,
    pub status: Option<String>,
    pub assignee_id: Patch<String>,
    pub cti: Patch<CtiSelection>,
}

/// What a body decodes to as an `UpdateTaskRequest`: the fields in the order above,
/// the first that fails naming the error.
pub open spec fn update_task_request_of(body: Json) -> Result<UpdateTaskRequest, Seq<char>> {
    match body {
        Json::Object(es) => {
            match (
                plain_text(es@, "title"@),
                plain_text(es@, "description"@),
                plain_text(es@, "status"@),
                nullable_text(es@, "assignee_id"@),
                nullable_selection(es@, "cti"@),
            ) {
                (Ok(title), Ok(description), Ok(status), Ok(assignee_id), Ok(cti)) => Ok(
                    UpdateTaskRequest {
                        title,
                        description,
                        status,
                        assignee_id,
                        cti,
                    },
                ),
                (Err(m), _, _, _, _) => Err(m),
                (_, Err(m), _, _, _) => Err(m),
                (_, _, Err(m), _, _) => Err(m),
                (_, _, _, Err(m), _) => Err(m),
                (_, _, _, _, Err(m)) => Err(m),
            }
        },
        _ => Err(not_object_message()),
    }
}

impl UpdateTaskRequest {
    pub fn from_json(body: &Json) -> (r: AppResult<UpdateTaskRequest>)
        ensures
            decoded(r, update_task_request_of(*body)),
    {
        match body {
            Json::Object(es) => {
                let title = match text_field(es, "title") {
                    Ok(v) => v,
                    Err(e) => {
                        return Err(e);
                    },
                };
                let description = match text_field(es, "description") {
                    Ok(v) => v,
                    Err(e) => {
                        return Err(e);
                    },
                };
                let status = match text_field(es, "status") {
                    Ok(v) => v,
                    Err(e) => {
                        return Err(e);
                    },
                };
                let assignee_id = match nullable_text_field(es, "assignee_id") {
                    Ok(v) => v,
                    Err(e) => {
                        return Err(e);
                    },
                };
                let cti = match nullable_selection_field(es, "cti") {
                    Ok(v) => v,
                    Err(e) => {
                        return Err(e);
                    },
                };
                Ok(UpdateTaskRequest { title, description, status, assignee_id, cti })
            },
            _ => Err(not_object()),
        }
    }
}

/// A new task.
#[derive(Debug)]
pub struct CreateTaskRequest {
    pub title: String,
    pub description: String,
    pub assignee_id: Option<String>,
    pub cti: Option<CtiSelection>,
}

/// What a body decodes to as a `CreateTaskRequest`: the fields in the order above,
/// the first that fails naming the error.
pub open spec fn create_task_request_of(body: Json) -> Result<CreateTaskRequest, Seq<char>> {
    match body {
        Json::Object(es) => {
            match (
                required_text(es@, "title"@),
                required_text(es@, "description"@),
                plain_text(es@, "assignee_id"@),
                plain_selection(es@, "cti"@),
            ) {
                (Ok(title), Ok(description), Ok(assignee_id), Ok(cti)) => Ok(
                    CreateTaskRequest {
                        title,
                        description,
                        assignee_id,
                        cti,
                    },
                ),
                (Err(m), _, _, _) => Err(m),
                (_, Err(m), _, _) => Err(m),
                (_, _, Err(m), _) => Err(m),
                (_, _, _, Err(m)) => Err(m),
            }
        },
        _ => Err(not_object_message()),
    }
}

impl CreateTaskRequest {
    pub fn from_json(body: &Json) -> (r: AppResult<CreateTaskRequest>)
        ensures
            decoded(r, create_task_request_of(*body)),
    {
        match body {
            Json::Object(es) => {
                let title = match required_text_field(es, "title") {
                    Ok(v) => v,
                    Err(e) => {
                        return Err(e);
                    },
                };
                let description = match required_text_field(es, "description") {
                    Ok(v) => v,
                    Err(e) => {
                        return Err(e);
                    },
                };
                let assignee_id = match text_field(es, "assignee_id") {
                    Ok(v) => v,
                    Err(e) => {
                        return Err(e);
                    },
                };
                let cti = match selection_field(es, "cti") {
                    Ok(v) => v,
                    Err(e) => {
                        return Err(e);
                    },
                };
                Ok(CreateTaskRequest { title, description, assignee_id, cti })
            },
            _ => Err(not_object()),
        }
    }
}

/// A note to append to a task.
#[derive(Debug)]
pub struct AddNoteRequest {
    pub note: String,
}

/// What a body decodes to as an `AddNoteRequest`: the fields in the order above,
/// the first that fails naming the error.
pub open spec fn add_note_request_of(body: Json) -> Result<AddNoteRequest, Seq<char>> {
    match body {
        Json::Object(es) => {
            match required_text(es@, "note"@) {
                Ok(note) => Ok(AddNoteRequest { note }),
                Err(m) => Err(m),
            }
        },
        _ => Err(not_object_message()),
    }
}

impl AddNoteRequest {
    pub fn from_json(body: &Json) -> (r: AppResult<AddNoteRequest>)
        ensures
            decoded(r, add_note_request_of(*body)),
    {
        match body {
            Json::Object(es) => {
                let note = match required_text_field(es, "note") {
                    Ok(v) => v,
                    Err(e) => {
                        return Err(e);
                    },
                };
                Ok(AddNoteRequest { note })
            },
            _ => Err(not_object()),
        }
    }
}

/// A partial update of an account's profile.
#[derive(Debug)]
pub struct UpdateUserRequest {
    pub email: Option<String>,
    pub username: Option<String>,
}

/// What a body decodes to as an `UpdateUserRequest`: the fields in the order above,
/// the first that fails naming the error.
pub open spec fn update_user_request_of(body: Json) -> Result<UpdateUserRequest, Seq<char>> {
    match body {
        Json::Object(es) => {
            match (plain_text(es@, "email"@), plain_text(es@, "username"@)) {
                (Ok(email), Ok(username)) => Ok(UpdateUserRequest { email, username }),
                (Err(m), _) => Err(m),
                (_, Err(m)) => Err(m),
            }
        },
        _ => Err(not_object_message()),
    }
}

impl UpdateUserRequest {
    pub fn from_json(body: &Json) -> (r: AppResult<UpdateUserRequest>)
        ensures
            decoded(r, update_user_request_of(*body)),
    {
        match body {
            Json::Object(es) => {
                let email = match text_field(es, "email") {
                    Ok(v) => v,
                    Err(e) => {
                        return Err(e);
                    },
                };
                let username = match text_field(es, "username") {
                    Ok(v) => v,
                    Err(e) => {
                        return Err(e);
                    },
                };
                Ok(UpdateUserRequest { email, username })
            },
            _ => Err(not_object()),
        }
    }
}

/// A new role for an account.
#[derive(Debug)]
pub struct UpdateRoleRequest {
    pub role: String,
}

/// What a body decodes to as an `UpdateRoleRequest`: the fields in the order above,
/// the first that fails naming the error.
pub open spec fn update_role_request_of(body: Json) -> Result<UpdateRoleRequest, Seq<char>> {
    match body {
        Json::Object(es) => {
            match required_text(es@, "role"@) {
                Ok(role) => Ok(UpdateRoleRequest { role }),
                Err(m) => Err(m),
            }
        },
        _ => Err(not_object_message()),
    }
}

impl UpdateRoleRequest {
    pub fn from_json(body: &Json) -> (r: AppResult<UpdateRoleRequest>)
        ensures
            decoded(r, update_role_request_of(*body)),
    {
        match body {
            Json::Object(es) => {
                let role = match required_text_field(es, "role") {
                    Ok(v) => v,
                    Err(e) => {
                        return Err(e);
                    },
                };
                Ok(UpdateRoleRequest { role })
            },
            _ => Err(not_object()),
        }
    }
}

/// A registration.
#[derive(Debug)]
pub struct RegisterRequest {
    pub email: String,
    pub username: String,
    pub password: String,
}

/// What a body decodes to as a `RegisterRequest`: the fields in the order above,
/// the first that fails naming the error.
pub open spec fn register_request_of(body: Json) -> Result<RegisterRequest, Seq<char>> {
    match body {
        Json::Object(es) => {
            match (
                required_text(es@, "email"@),
                required_text(es@, "username"@),
                required_text(es@, "password"@),
            ) {
                (Ok(email), Ok(username), Ok(password)) => Ok(
                    RegisterRequest {
                        email,
                        username,
                        password,
                    },
                ),
                (Err(m), _, _) => Err(m),
                (_, Err(m), _) => Err(m),
                (_, _, Err(m)) => Err(m),
            }
        },
        _ => Err(not_object_message()),
    }
}

impl RegisterRequest {
    pub fn from_json(body: &Json) -> (r: AppResult<RegisterRequest>)
        ensures
            decoded(r, register_request_of(*body)),
    {
        match body {
            Json::Object(es) => {
                let email = match required_text_field(es, "email") {
                    Ok(v) => v,
                    Err(e) => {
                        return Err(e);
                    },
                };
                let username = match required_text_field(es, "username") {
                    Ok(v) => v,
                    Err(e) => {
                        return Err(e);
                    },
                };
                let password = match required_text_field(es, "password") {
                    Ok(v) => v,
                    Err(e) => {
                        return Err(e);
                    },
                };
                Ok(RegisterRequest { email, username, password })
            },
            _ => Err(not_object()),
        }
    }
}

/// A login.
#[derive(Debug)]
pub struct LoginRequest {
    pub email: String,
    pub password: String,
}

/// What a body decodes to as a `LoginRequest`: the fields in the order above,
/// the first that fails naming the error.
pub open spec fn login_request_of(body: Json) -> Result<LoginRequest, Seq<char>> {
    match body {
        Json::Object(es) => {
            match (required_text(es@, "email"@), required_text(es@, "password"@)) {
                (Ok(email), Ok(password)) => Ok(LoginRequest { email, password }),
                (Err(m), _) => Err(m),
                (_, Err(m)) => Err(m),
            }
        },
        _ => Err(not_object_message()),
    }
}

impl LoginRequest {
    pub fn from_json(body: &Json) -> (r: AppResult<LoginRequest>)
        ensures
            decoded(r, login_request_of(*body)),
    {
        match body {
            Json::Object(es) => {
                let email = match required_text_field(es, "email") {
                    Ok(v) => v,
                    Err(e) => {
                        return Err(e);
                    },
                };
                let password = match required_text_field(es, "password") {
                    Ok(v) => v,
                    Err(e) => {
                        return Err(e);
                    },
                };
                Ok(LoginRequest { email, password })
            },
            _ => Err(not_object()),
        }
    }
}

/// A new classification category.
#[derive(Debug)]
pub struct CreateCategoryRequest {
    pub name: String,
}

/// What a body decodes to as a `CreateCategoryRequest`: the fields in the order above,
/// the first that fails naming the error.
pub open spec fn create_category_request_of(body: Json) -> Result<
    CreateCategoryRequest,
    Seq<char>,
> {
    match body {
        Json::Object(es) => {
            match required_text(es@, "name"@) {
                Ok(name) => Ok(CreateCategoryRequest { name }),
                Err(m) => Err(m),
            }
        },
        _ => Err(not_object_message()),
    }
}

impl CreateCategoryRequest {
    pub fn from_json(body: &Json) -> (r: AppResult<CreateCategoryRequest>)
        ensures
            decoded(r, create_category_request_of(*body)),
    {
        match body {
            Json::Object(es) => {
                let name = match required_text_field(es, "name") {
                    Ok(v) => v,
                    Err(e) => {
                        return Err(e);
                    },
                };
                Ok(CreateCategoryRequest { name })
            },
            _ => Err(not_object()),
        }
    }
}

/// A new classification type within a category.
#[derive(Debug)]
pub struct CreateTypeRequest {
    pub name: String,
    pub category_id: String,
}

/// What a body decodes to as a `CreateTypeRequest`: the fields in the order above,
/// the first that fails naming the error.
pub open spec fn create_type_request_of(body: Json) -> Result<CreateTypeRequest, Seq<char>> {
    match body {
        Json::Object(es) => {
            match (required_text(es@, "name"@), required_text(es@, "category_id"@)) {
                (Ok(name), Ok(category_id)) => Ok(CreateTypeRequest { name, category_id }),
                (Err(m), _) => Err(m),
                (_, Err(m)) => Err(m),
            }
        },
        _ => Err(not_object_message()),
    }
}

impl CreateTypeRequest {
    pub fn from_json(body: &Json) -> (r: AppResult<CreateTypeRequest>)
        ensures
            decoded(r, create_type_request_of(*body)),
    {
        match body {
            Json::Object(es) => {
                let name = match required_text_field(es, "name") {
                    Ok(v) => v,
                    Err(e) => {
                        return Err(e);
                    },
                };
                let category_id = match required_text_field(es, "category_id") {
                    Ok(v) => v,
                    Err(e) => {
                        return Err(e);
                    },
                };
                Ok(CreateTypeRequest { name, category_id })
            },
            _ => Err(not_object()),
        }
    }
}

/// A new classification item within a type.
#[derive(Debug)]
pub struct CreateItemRequest {
    pub name: String,
    pub type_id: String,
}

/// What a body decodes to as a `CreateItemRequest`: the fields in the order above,
/// the first that fails naming the error.
pub open spec fn create_item_request_of(body: Json) -> Result<CreateItemRequest, Seq<char>> {
    match body {
        Json::Object(es) => {
            match (required_text(es@, "name"@), required_text(es@, "type_id"@)) {
                (Ok(name), Ok(type_id)) => Ok(CreateItemRequest { name, type_id }),
                (Err(m), _) => Err(m),
                (_, Err(m)) => Err(m),
            }
        },
        _ => Err(not_object_message()),
    }
}

impl CreateItemRequest {
    pub fn from_json(body: &Json) -> (r: AppResult<CreateItemRequest>)
        ensures
            decoded(r, create_item_request_of(*body)),
    {
        match body {
            Json::Object(es) => {
                let name = match required_text_field(es, "name") {
                    Ok(v) => v,
                    Err(e) => {
                        return Err(e);
                    },
                };
                let type_id = match required_text_field(es, "type_id") {
                    Ok(v) => v,
                    Err(e) => {
                        return Err(e);
                    },
                };
                Ok(CreateItemRequest { name, type_id })
            },
            _ => Err(not_object()),
        }
    }
}
} // verus!

verus! {

/// Each clearable field of a task update decodes by three states: a key left
/// out gives `Absent`, a key holding `null` gives `Cleared`, a key holding a
/// value gives `SetTo` that value. An empty body leaves every field alone, and
/// a body holding only `"assignee_id": null` clears the assignee and nothing
/// else.
pub proof fn lemma_clearable_fields_tri_state(es: Vec<(String, Json)>)
    ensures
        update_task_request_of(Json::Object(es)) matches Ok(r) ==> {
            &&& lookup(es@, "assignee_id"@) is None ==> r.assignee_id == Patch::<String>::Absent
            &&& lookup(es@, "assignee_id"@) == Some(Json::Null) ==> r.assignee_id == Patch::<
                String,
            >::Cleared
            &&& forall|s: String|
                lookup(es@, "assignee_id"@) == Some(Json::Str(s)) ==> r.assignee_id
                    == Patch::SetTo(s)
            &&& lookup(es@, "cti"@) is None ==> r.cti == Patch::<CtiSelection>::Absent
            &&& lookup(es@, "cti"@) == Some(Json::Null) ==> r.cti == Patch::<CtiSelection>::Cleared
            &&& forall|v: Json, c: CtiSelection|
                lookup(es@, "cti"@) == Some(v) && selection_of(v) == Some(c) ==> r.cti
                    == Patch::SetTo(c)
        },
        es@.len() == 0 ==> update_task_request_of(Json::Object(es)) == Ok::<
            UpdateTaskRequest,
            Seq<char>,
        >(
            UpdateTaskRequest {
                title: None,
                description: None,
                status: None,
                assignee_id: Patch::Absent,
                cti: Patch::Absent,
            },
        ),
        (es@.len() == 1 && es@[0].0@ == "assignee_id"@ && es@[0].1 == Json::Null)
            ==> update_task_request_of(Json::Object(es)) == Ok::<UpdateTaskRequest, Seq<char>>(
            UpdateTaskRequest {
                title: None,
                description: None,
                status: None,
                assignee_id: Patch::Cleared,
                cti: Patch::Absent,
            },
        ),
{
    reveal_strlit("assignee_id");
    reveal_strlit("title");
    reveal_strlit("description");
    reveal_strlit("status");
    reveal_strlit("cti");
    let s = es@;
    if s.len() == 1 && s[0].0@ == "assignee_id"@ {
        assert(lookup_from(s, "title"@, 1) is None);
        assert(lookup_from(s, "description"@, 1) is None);
        assert(lookup_from(s, "status"@, 1) is None);
        assert(lookup_from(s, "cti"@, 1) is None);
        assert("assignee_id"@.len() == 11);
        assert("title"@.len() == 5);
        assert("description"@.len() == 11);
        assert("assignee_id"@[0] != "description"@[0]);
        assert(s[0].0@ != "title"@);
        assert(s[0].0@ != "description"@);
        assert(s[0].0@ != "status"@);
        assert(s[0].0@ != "cti"@);
    }
}

/// The category whose types a listing wants.
#[derive(Debug)]
pub struct CategoryIdFilter {
    pub category_id: String,
}

/// The type whose items a listing wants.
#[derive(Debug)]
pub struct TypeIdFilter {
    pub type_id: String,
}

} // verus!
