//! The mutation applier: from a decoded partial update to the fields to
//! replace and the fields to clear, and what storing them does to a task.
use vstd::prelude::*;
use crate::model::{Task, TaskNote};
use crate::patch::AddNoteRequest;
use crate::token::Claims;
use crate::patch::{CtiSelection, Patch, UpdateTaskRequest, UpdateUserRequest};

verus! {

/// A new value for one field of a task.
#[derive(Debug)]
pub enum TaskValue {
    Title(String),
    Description(String),
    Status(String),
    Assignee(String),
    Cti(CtiSelection),
}

/// A clearable field of a task.
#[derive(Debug)]
pub enum ClearableField {
    Assignee,
    Cti,
}

/// One write to a task: the fields to replace, the fields to clear, and the
/// new modification time.
#[derive(Debug)]
pub struct TaskChanges {
    pub set: Vec<TaskValue>,
    pub clear: Vec<ClearableField>,
    pub updated_at: i64,
}

pub open spec fn text_value(o: Option<String>, f: spec_fn(String) -> TaskValue) -> Seq<TaskValue> {
    match o {
        Some(s) => seq![f(s)],
        None => seq![],
    }
}

pub open spec fn assignee_value(p: UpdateTaskRequest) -> Seq<TaskValue> {
    match p.assignee_id {
        Patch::SetTo(a) => seq![TaskValue::Assignee(a)],
        _ => seq![],
    }
}

pub open spec fn cti_value(p: UpdateTaskRequest) -> Seq<TaskValue> {
    match p.cti {
        Patch::SetTo(c) => seq![TaskValue::Cti(c)],
        _ => seq![],
    }
}

pub open spec fn assignee_clear(p: UpdateTaskRequest) -> Seq<ClearableField> {
    match p.assignee_id {
        Patch::Cleared => seq![ClearableField::Assignee],
        _ => seq![],
    }
}

pub open spec fn cti_clear(p: UpdateTaskRequest) -> Seq<ClearableField> {
    match p.cti {
        Patch::Cleared => seq![ClearableField::Cti],
        _ => seq![],
    }
}

/// The values a patch replaces, in the order title, description, status,
/// assignee, classification; only those it gives.
pub open spec fn set_values(p: UpdateTaskRequest) -> Seq<TaskValue> {
    text_value(p.title, |s: String| TaskValue::Title(s)) + text_value(
        p.description,
        |s: String| TaskValue::Description(s),
    ) + text_value(p.status, |s: String| TaskValue::Status(s)) + assignee_value(p) + cti_value(p)
}

/// The fields a patch clears: only those it gives as `null`.
pub open spec fn cleared_fields(p: UpdateTaskRequest) -> Seq<ClearableField> {
    assignee_clear(p) + cti_clear(p)
}

pub open spec fn with_value(t: Task, v: TaskValue) -> Task {
    match v {
        TaskValue::Title(s) => Task { title: s, ..t },
        TaskValue::Description(s) => Task { description: s, ..t },
        TaskValue::Status(s) => Task { status: s, ..t },
        TaskValue::Assignee(a) => Task { assignee_id: Some(a), ..t },
        TaskValue::Cti(c) => Task { cti: Some(c), ..t },
    }
}

pub open spec fn with_values(t: Task, vs: Seq<TaskValue>) -> Task
    decreases vs.len(),
{
    if vs.len() == 0 {
        t
    } else {
        with_value(with_values(t, vs.drop_last()), vs.last())
    }
}

pub open spec fn without(t: Task, f: ClearableField) -> Task {
    match f {
        ClearableField::Assignee => Task { assignee_id: None, ..t },
        ClearableField::Cti => Task { cti: None, ..t },
    }
}

pub open spec fn without_all(t: Task, fs: Seq<ClearableField>) -> Task
    decreases fs.len(),
{
    if fs.len() == 0 {
        t
    } else {
        without(without_all(t, fs.drop_last()), fs.last())
    }
}

/// The task after a write: the listed values replaced, the listed fields
/// cleared, the modification time stamped.
pub open spec fn stored(t: Task, set: Seq<TaskValue>, clear: Seq<ClearableField>, at: i64) -> Task {
    Task { updated_at: at, ..without_all(with_values(t, set), clear) }
}

/// The task a patch asks for, field by field.
pub open spec fn patched(t: Task, p: UpdateTaskRequest, now: i64) -> Task {
    Task {
        title: match p.title {
            Some(s) => s,
            None => t.title,
        },
        description: match p.description {
            Some(s) => s,
            None => t.description,
        },
        status: match p.status {
            Some(s) => s,
            None => t.status,
        },
        assignee_id: match p.assignee_id {
            Patch::Absent => t.assignee_id,
            Patch::Cleared => None,
            Patch::SetTo(a) => Some(a),
        },
        cti: match p.cti {
            Patch::Absent => t.cti,
            Patch::Cleared => None,
            Patch::SetTo(c) => Some(c),
        },
        updated_at: now,
        ..t
    }
}

proof fn lemma_with_values_concat(t: Task, a: Seq<TaskValue>, b: Seq<TaskValue>)
    ensures
        with_values(t, a + b) == with_values(with_values(t, a), b),
    decreases b.len(),
{
    if b.len() == 0 {
        assert(a + b =~= a);
    } else {
        assert((a + b).drop_last() =~= a + b.drop_last());
        lemma_with_values_concat(t, a, b.drop_last());
    }
}

proof fn lemma_without_all_concat(t: Task, a: Seq<ClearableField>, b: Seq<ClearableField>)
    ensures
        without_all(t, a + b) == without_all(without_all(t, a), b),
    decreases b.len(),
{
    if b.len() == 0 {
        assert(a + b =~= a);
    } else {
        assert((a + b).drop_last() =~= a + b.drop_last());
        lemma_without_all_concat(t, a, b.drop_last());
    }
}

proof fn lemma_one_value(t: Task, v: TaskValue)
    ensures
        with_values(t, seq![v]) == with_value(t, v),
{
    assert(seq![v].drop_last() =~= Seq::<TaskValue>::empty());
    assert(with_values(t, Seq::<TaskValue>::empty()) == t);
    assert(seq![v].last() == v);
}

proof fn lemma_one_field(t: Task, f: ClearableField)
    ensures
        without_all(t, seq![f]) == without(t, f),
{
    assert(seq![f].drop_last() =~= Seq::<ClearableField>::empty());
    assert(without_all(t, Seq::<ClearableField>::empty()) == t);
    assert(seq![f].last() == f);
}

/// Storing the update set and clear set of a patch gives the task the patch
/// asks for.
pub proof fn lemma_changes_apply_patch(t: Task, p: UpdateTaskRequest, now: i64)
    ensures
        stored(t, set_values(p), cleared_fields(p), now) == patched(t, p, now),
{
    let s1 = text_value(p.title, |s: String| TaskValue::Title(s));
    let s2 = text_value(p.description, |s: String| TaskValue::Description(s));
    let s3 = text_value(p.status, |s: String| TaskValue::Status(s));
    let s4 = assignee_value(p);
    let s5 = cti_value(p);
    lemma_with_values_concat(t, s1 + s2 + s3 + s4, s5);
    lemma_with_values_concat(t, s1 + s2 + s3, s4);
    lemma_with_values_concat(t, s1 + s2, s3);
    lemma_with_values_concat(t, s1, s2);
    let t1 = with_values(t, s1);
    let t2 = with_values(t1, s2);
    let t3 = with_values(t2, s3);
    let t4 = with_values(t3, s4);
    let t5 = with_values(t4, s5);
    match p.title {
        Some(x) => lemma_one_value(t, TaskValue::Title(x)),
        None => {},
    }
    match p.description {
        Some(x) => lemma_one_value(t1, TaskValue::Description(x)),
        None => {},
    }
    match p.status {
        Some(x) => lemma_one_value(t2, TaskValue::Status(x)),
        None => {},
    }
    match p.assignee_id {
        Patch::SetTo(a) => lemma_one_value(t3, TaskValue::Assignee(a)),
        _ => {},
    }
    match p.cti {
        Patch::SetTo(c) => lemma_one_value(t4, TaskValue::Cti(c)),
        _ => {},
    }
    let c1 = assignee_clear(p);
    let c2 = cti_clear(p);
    lemma_without_all_concat(t5, c1, c2);
    let u1 = without_all(t5, c1);
    match p.assignee_id {
        Patch::Cleared => lemma_one_field(t5, ClearableField::Assignee),
        _ => {},
    }
    match p.cti {
        Patch::Cleared => lemma_one_field(u1, ClearableField::Cti),
        _ => {},
    }
}

/// A partial update never touches a field it leaves out, and always stamps
/// the modification time.
pub proof fn lemma_absent_fields_untouched(t: Task, p: UpdateTaskRequest, now: i64)
    ensures
        ({
            let r = stored(t, set_values(p), cleared_fields(p), now);
            &&& p.title is None ==> r.title == t.title
            &&& p.description is None ==> r.description == t.description
            &&& p.status is None ==> r.status == t.status
            &&& p.assignee_id is Absent ==> r.assignee_id == t.assignee_id
            &&& p.cti is Absent ==> r.cti == t.cti
            &&& r.id == t.id && r.notes == t.notes && r.created_at == t.created_at
            &&& r.updated_at == now
        }),
{
    lemma_changes_apply_patch(t, p, now);
}

/// The update set and clear set of a patch, stamped at `now`.
pub fn task_changes(p: UpdateTaskRequest, now: i64) -> (r: TaskChanges)
    ensures
        r.set@ == set_values(p),
        r.clear@ == cleared_fields(p),
        r.updated_at == now,
{
    let ghost g = p;
    let mut set: Vec<TaskValue> = Vec::new();
    let mut clear: Vec<ClearableField> = Vec::new();
    match p.title {
        Some(s) => set.push(TaskValue::Title(s)),
        None => {},
    }
    assert(set@ =~= text_value(g.title, |s: String| TaskValue::Title(s)));
    let ghost s1 = set@;
    match p.description {
        Some(s) => set.push(TaskValue::Description(s)),
        None => {},
    }
    assert(set@ =~= s1 + text_value(g.description, |s: String| TaskValue::Description(s)));
    let ghost s2 = set@;
    match p.status {
        Some(s) => set.push(TaskValue::Status(s)),
        None => {},
    }
    assert(set@ =~= s2 + text_value(g.status, |s: String| TaskValue::Status(s)));
    let ghost s3 = set@;
    match p.assignee_id {
        Patch::SetTo(a) => set.push(TaskValue::Assignee(a)),
        Patch::Cleared => clear.push(ClearableField::Assignee),
        Patch::Absent => {},
    }
    let ghost s4 = set@;
    let ghost c1 = clear@;
    match p.cti {
        Patch::SetTo(c) => set.push(TaskValue::Cti(c)),
        Patch::Cleared => clear.push(ClearableField::Cti),
        Patch::Absent => {},
    }
    assert(set@ =~= set_values(g));
    assert(clear@ =~= cleared_fields(g));
    TaskChanges { set, clear, updated_at: now }
}

/// The task after storing `changes`.
pub fn apply_changes(t: Task, changes: &TaskChanges) -> (r: Task)
    ensures
        r == stored(t, changes.set@, changes.clear@, changes.updated_at),
{
    let ghost t0 = t;
    let mut cur = t;
    let mut i: usize = 0;
    while i < changes.set.len()
        invariant
            i <= changes.set@.len(),
            cur == with_values(t0, changes.set@.take(i as int)),
        decreases changes.set@.len() - i,
    {
        let ghost before = cur;
        match &changes.set[i] {
            TaskValue::Title(s) => cur.title = s.clone(),
            TaskValue::Description(s) => cur.description = s.clone(),
            TaskValue::Status(s) => cur.status = s.clone(),
            TaskValue::Assignee(a) => cur.assignee_id = Some(a.clone()),
            TaskValue::Cti(c) => cur.cti = Some(c.duplicate()),
        }
        proof {
            assert(changes.set@.take(i + 1).drop_last() =~= changes.set@.take(i as int));
            assert(changes.set@.take(i + 1).last() == changes.set@[i as int]);
        }
        i = i + 1;
    }
    assert(changes.set@.take(i as int) =~= changes.set@);
    let ghost mid = cur;
    let mut j: usize = 0;
    while j < changes.clear.len()
        invariant
            j <= changes.clear@.len(),
            cur == without_all(mid, changes.clear@.take(j as int)),
        decreases changes.clear@.len() - j,
    {
        match &changes.clear[j] {
            ClearableField::Assignee => cur.assignee_id = None,
            ClearableField::Cti => cur.cti = None,
        }
        proof {
            assert(changes.clear@.take(j + 1).drop_last() =~= changes.clear@.take(j as int));
            assert(changes.clear@.take(j + 1).last() == changes.clear@[j as int]);
        }
        j = j + 1;
    }
    assert(changes.clear@.take(j as int) =~= changes.clear@);
    cur.updated_at = changes.updated_at;
    cur
}

/// The task `t` after the partial update `p` at time `now`.
pub fn apply_patch(t: Task, p: UpdateTaskRequest, now: i64) -> (r: Task)
    ensures
        r == patched(t, p, now),
{
    let ghost g = p;
    let changes = task_changes(p, now);
    proof {
        lemma_changes_apply_patch(t, g, now);
    }
    apply_changes(t, &changes)
}

/// The note `req` adds, stamped with the acting account.
pub fn note_by(actor: &Claims, req: AddNoteRequest) -> (r: TaskNote)
    ensures
        r.note == req.note,
        r.author == actor.sub,
        r.id@.len() == 36,
{
    TaskNote::new(req.note, actor.sub.clone())
}

/// A new value for one profile field of an account.
#[derive(Debug)]
pub enum UserValue {
    Email(String),
    Username(String),
}

/// The profile values an update replaces: only those it gives.
pub open spec fn user_values(req: UpdateUserRequest) -> Seq<UserValue> {
    let email: Seq<UserValue> = match req.email {
        Some(e) => seq![UserValue::Email(e)],
        None => seq![],
    };
    let username: Seq<UserValue> = match req.username {
        Some(u) => seq![UserValue::Username(u)],
        None => seq![],
    };
    email + username
}

pub fn user_changes(req: UpdateUserRequest) -> (r: Vec<UserValue>)
    ensures
        r@ == user_values(req),
{
    let ghost g = req;
    let mut out: Vec<UserValue> = Vec::new();
    match req.email {
        Some(e) => out.push(UserValue::Email(e)),
        None => {},
    }
    match req.username {
        Some(u) => out.push(UserValue::Username(u)),
        None => {},
    }
    assert(out@ =~= user_values(g));
    out
}

} // verus!
