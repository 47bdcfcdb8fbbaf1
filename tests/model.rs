use missioncontrol::model::{Category, CtiItem, CtiType, Task, TaskNote, User, UserPublic};

#[test]
fn task_new_defaults() {
    let t = Task::new("Fix vuln".to_string(), "Patch CVE-2024-1234".to_string());
    assert_eq!(t.title, "Fix vuln");
    assert_eq!(t.description, "Patch CVE-2024-1234");
    assert_eq!(t.status, "todo");
    assert!(t.notes.is_empty());
    assert!(t.assignee_id.is_none());
    assert!(t.cti.is_none());
    assert!(!t.id.is_empty());
}

#[test]
fn task_ids_are_unique() {
    let a = Task::new("A".to_string(), "desc".to_string());
    let b = Task::new("A".to_string(), "desc".to_string());
    assert_ne!(a.id, b.id);
}

#[test]
fn task_note_new_stores_fields() {
    let n = TaskNote::new("Investigated".to_string(), "user-99".to_string());
    assert_eq!(n.note, "Investigated");
    assert_eq!(n.author, "user-99");
    assert!(!n.id.is_empty());
}

#[test]
fn category_new_sets_name_and_generates_id() {
    let cat = Category::new("Malware".to_string());
    assert_eq!(cat.name, "Malware");
    assert!(!cat.id.is_empty());
}

#[test]
fn category_ids_are_unique() {
    let a = Category::new("A".to_string());
    let b = Category::new("A".to_string());
    assert_ne!(a.id, b.id);
}

#[test]
fn cti_type_new_stores_category_id() {
    let t = CtiType::new("Ransomware".to_string(), "cat-123".to_string());
    assert_eq!(t.name, "Ransomware");
    assert_eq!(t.category_id, "cat-123");
    assert!(!t.id.is_empty());
}

#[test]
fn cti_item_new_stores_type_id() {
    let item = CtiItem::new("LockBit".to_string(), "type-456".to_string());
    assert_eq!(item.name, "LockBit");
    assert_eq!(item.type_id, "type-456");
    assert!(!item.id.is_empty());
}

#[test]
fn identifiers_are_hyphenated_uuids() {
    let t = Task::new("T".to_string(), "D".to_string());
    assert_eq!(t.id.len(), 36);
    assert_eq!(t.id.matches('-').count(), 4);
    assert_eq!(t.created_at, t.updated_at);
    assert!(t.created_at > 1_600_000_000_000);
}

#[test]
fn new_user_is_ordinary_and_public_view_hides_hash() {
    let u = User::new("a@x.com".to_string(), "a".to_string(), "$argon2id$stub".to_string());
    assert_eq!(u.role, "user");
    assert_eq!(u.id.len(), 36);
    let id = u.id.clone();
    let p = UserPublic::from(u);
    assert_eq!(p.id, id);
    assert_eq!(p.email, "a@x.com");
    assert_eq!(p.username, "a");
    assert_eq!(p.role, "user");
    assert!(!format!("{:?}", p).contains("argon2"));
}
