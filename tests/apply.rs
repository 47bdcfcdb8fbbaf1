use missioncontrol::apply::{apply_changes, apply_patch, note_by, task_changes, user_changes, ClearableField, TaskValue, UserValue};
use missioncontrol::model::Task;
use missioncontrol::patch::{AddNoteRequest, CtiSelection, Patch, UpdateTaskRequest, UpdateUserRequest};
use missioncontrol::token::Claims;

fn stored_task() -> Task {
    let mut t = Task::new("Fix vuln".to_string(), "Patch it".to_string());
    t.assignee_id = Some("user-7".to_string());
    t.cti = Some(CtiSelection { category_id: "c".to_string(), type_id: "t".to_string(), item_id: "i".to_string() });
    t.updated_at = 1_000;
    t
}

fn empty_patch() -> UpdateTaskRequest {
    UpdateTaskRequest { title: None, description: None, status: None, assignee_id: Patch::Absent, cti: Patch::Absent }
}

#[test]
fn null_assignee_clears_only_the_assignee() {
    let t = stored_task();
    let before = t.clone();
    let p = UpdateTaskRequest { assignee_id: Patch::Cleared, ..empty_patch() };
    let r = apply_patch(t, p, 2_000);
    assert!(r.assignee_id.is_none());
    assert_eq!(r.title, before.title);
    assert_eq!(r.description, before.description);
    assert_eq!(r.status, before.status);
    assert_eq!(r.cti, before.cti);
    assert_eq!(r.id, before.id);
    assert_eq!(r.created_at, before.created_at);
    assert_eq!(r.updated_at, 2_000);
    assert!(r.updated_at > before.updated_at);
}

#[test]
fn empty_patch_only_stamps_time() {
    let t = stored_task();
    let before = t.clone();
    let r = apply_patch(t, empty_patch(), 5);
    assert_eq!(r.title, before.title);
    assert_eq!(r.assignee_id, before.assignee_id);
    assert_eq!(r.cti, before.cti);
    assert_eq!(r.updated_at, 5);
}

#[test]
fn set_fields_are_replaced() {
    let t = stored_task();
    let sel = CtiSelection { category_id: "c2".to_string(), type_id: "t2".to_string(), item_id: "i2".to_string() };
    let p = UpdateTaskRequest {
        title: Some("New".to_string()),
        status: Some("done".to_string()),
        assignee_id: Patch::SetTo("user-8".to_string()),
        cti: Patch::SetTo(sel.clone()),
        ..empty_patch()
    };
    let r = apply_patch(t, p, 9);
    assert_eq!(r.title, "New");
    assert_eq!(r.description, "Patch it");
    assert_eq!(r.status, "done");
    assert_eq!(r.assignee_id, Some("user-8".to_string()));
    assert_eq!(r.cti, Some(sel));
}

#[test]
fn changes_list_only_mentioned_fields() {
    let p = UpdateTaskRequest {
        description: Some("D".to_string()),
        assignee_id: Patch::Cleared,
        cti: Patch::SetTo(CtiSelection { category_id: "c".to_string(), type_id: "t".to_string(), item_id: "i".to_string() }),
        ..empty_patch()
    };
    let ch = task_changes(p, 77);
    assert_eq!(ch.updated_at, 77);
    assert_eq!(ch.set.len(), 2);
    assert!(matches!(&ch.set[0], TaskValue::Description(d) if d == "D"));
    assert!(matches!(&ch.set[1], TaskValue::Cti(c) if c.item_id == "i"));
    assert_eq!(ch.clear.len(), 1);
    assert!(matches!(ch.clear[0], ClearableField::Assignee));
    let r = apply_changes(stored_task(), &ch);
    assert_eq!(r.description, "D");
    assert!(r.assignee_id.is_none());
}

#[test]
fn empty_patch_has_no_changes() {
    let ch = task_changes(empty_patch(), 1);
    assert!(ch.set.is_empty());
    assert!(ch.clear.is_empty());
}

#[test]
fn notes_are_stamped_with_the_actor() {
    let actor = Claims { sub: "user-99".to_string(), email: "e".to_string(), role: "user".to_string(), exp: 0 };
    let n = note_by(&actor, AddNoteRequest { note: "Investigated".to_string() });
    assert_eq!(n.author, "user-99");
    assert_eq!(n.note, "Investigated");
    assert_eq!(n.id.len(), 36);
}

#[test]
fn user_changes_follow_request() {
    let v = user_changes(UpdateUserRequest { email: None, username: Some("bob".to_string()) });
    assert_eq!(v.len(), 1);
    assert!(matches!(&v[0], UserValue::Username(u) if u == "bob"));
    assert!(user_changes(UpdateUserRequest { email: None, username: None }).is_empty());
}
