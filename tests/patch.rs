use missioncontrol::error::AppError;
use missioncontrol::json::Json;
use missioncontrol::patch::{CreateTaskRequest, CtiSelection, Patch, RegisterRequest, UpdateTaskRequest};

fn to_json(v: serde_json::Value) -> Json {
    match v {
        serde_json::Value::Null => Json::Null,
        serde_json::Value::Bool(b) => Json::Bool(b),
        serde_json::Value::Number(n) => Json::Number(n.to_string()),
        serde_json::Value::String(s) => Json::Str(s),
        serde_json::Value::Array(a) => Json::Array(a.into_iter().map(to_json).collect()),
        serde_json::Value::Object(m) => Json::Object(m.into_iter().map(|(k, v)| (k, to_json(v))).collect()),
    }
}

fn body(text: &str) -> Json {
    to_json(serde_json::from_str(text).unwrap())
}

fn bad_request<T: std::fmt::Debug>(r: Result<T, AppError>) -> String {
    match r {
        Err(AppError::BadRequest(m)) => m,
        other => panic!("expected a bad request, got {:?}", other),
    }
}

#[test]
fn update_request_omitted_assignee_is_none() {
    let json = r#"{"title":"New title"}"#;
    let req = UpdateTaskRequest::from_json(&body(json)).unwrap();
    assert_eq!(req.title, Some("New title".to_string()));
    assert!(req.assignee_id == Patch::Absent, "omitted field should be None");
    assert!(req.cti == Patch::Absent);
}

#[test]
fn update_request_null_assignee_is_some_none() {
    let json = r#"{"assignee_id":null}"#;
    let req = UpdateTaskRequest::from_json(&body(json)).unwrap();
    assert_eq!(req.assignee_id, Patch::Cleared);
}

#[test]
fn update_request_set_assignee_is_some_some() {
    let json = r#"{"assignee_id":"user-42"}"#;
    let req = UpdateTaskRequest::from_json(&body(json)).unwrap();
    assert_eq!(req.assignee_id, Patch::SetTo("user-42".to_string()));
}

#[test]
fn update_request_omitted_cti_is_none() {
    let json = r#"{}"#;
    let req = UpdateTaskRequest::from_json(&body(json)).unwrap();
    assert!(req.cti == Patch::Absent);
}

#[test]
fn update_request_null_cti_is_some_none() {
    let json = r#"{"cti":null}"#;
    let req = UpdateTaskRequest::from_json(&body(json)).unwrap();
    assert_eq!(req.cti, Patch::Cleared);
}

#[test]
fn update_request_set_cti_is_some_some() {
    let json = r#"{"cti":{"category_id":"c1","type_id":"t1","item_id":"i1"}}"#;
    let req = UpdateTaskRequest::from_json(&body(json)).unwrap();
    let cti = match req.cti {
        Patch::SetTo(c) => c,
        other => panic!("unexpected {:?}", other),
    };
    assert_eq!(cti.category_id, "c1");
    assert_eq!(cti.type_id, "t1");
    assert_eq!(cti.item_id, "i1");
}

#[test]
fn create_request_with_optional_fields() {
    let json = r#"{"title":"T","description":"D","assignee_id":"u1","cti":{"category_id":"c","type_id":"t","item_id":"i"}}"#;
    let req = CreateTaskRequest::from_json(&body(json)).unwrap();
    assert_eq!(req.assignee_id, Some("u1".to_string()));
    let cti = req.cti.unwrap();
    assert_eq!(cti.item_id, "i");
}

#[test]
fn create_request_without_optional_fields() {
    let json = r#"{"title":"T","description":"D"}"#;
    let req = CreateTaskRequest::from_json(&body(json)).unwrap();
    assert!(req.assignee_id.is_none());
    assert!(req.cti.is_none());
}

#[test]
fn empty_patch_leaves_every_field_alone() {
    let req = UpdateTaskRequest::from_json(&body("{}")).unwrap();
    assert!(req.title.is_none() && req.description.is_none() && req.status.is_none());
    assert_eq!(req.assignee_id, Patch::Absent);
    assert_eq!(req.cti, Patch::Absent);
}

#[test]
fn plain_fields_treat_null_as_no_change() {
    let req = UpdateTaskRequest::from_json(&body(r#"{"title":null,"status":"done"}"#)).unwrap();
    assert!(req.title.is_none());
    assert_eq!(req.status, Some("done".to_string()));
}

#[test]
fn unknown_keys_are_ignored() {
    let req = UpdateTaskRequest::from_json(&body(r#"{"colour":7,"assignee_id":"u"}"#)).unwrap();
    assert_eq!(req.assignee_id, Patch::SetTo("u".to_string()));
}

#[test]
fn wrong_shape_names_the_field() {
    let m = bad_request(UpdateTaskRequest::from_json(&body(r#"{"assignee_id":5}"#)));
    assert_eq!(m, "invalid value for field 'assignee_id'");
}

#[test]
fn classification_missing_sub_key_fails() {
    let json = r#"{"cti":{"category_id":"c1","type_id":"t1"}}"#;
    let m = bad_request(UpdateTaskRequest::from_json(&body(json)));
    assert_eq!(m, "invalid value for field 'cti'");
}

#[test]
fn first_bad_field_in_order_is_named() {
    let json = r#"{"cti":3,"title":false}"#;
    let m = bad_request(UpdateTaskRequest::from_json(&body(json)));
    assert_eq!(m, "invalid value for field 'title'");
}

#[test]
fn body_must_be_an_object() {
    let m = bad_request(UpdateTaskRequest::from_json(&body("[1,2]")));
    assert_eq!(m, "request body must be a JSON object");
}

#[test]
fn create_request_needs_title() {
    let m = bad_request(CreateTaskRequest::from_json(&body(r#"{"description":"D"}"#)));
    assert_eq!(m, "missing field 'title'");
}

#[test]
fn register_request_fields() {
    let json = r#"{"email":"a@x.com","username":"a","password":"pw123456"}"#;
    let req = RegisterRequest::from_json(&body(json)).unwrap();
    assert_eq!(req.email, "a@x.com");
    assert_eq!(req.username, "a");
    assert_eq!(req.password, "pw123456");
}

#[test]
fn selection_duplicate_is_equal() {
    let c = CtiSelection { category_id: "c".to_string(), type_id: "t".to_string(), item_id: "i".to_string() };
    assert_eq!(c.duplicate(), c);
}
