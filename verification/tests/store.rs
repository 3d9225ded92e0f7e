use task_manager_backend::db_types;
use task_manager_backend::error::ApiError;
use task_manager_backend::memory::MemoryStore;
use task_manager_backend::store::{FieldPatch, StoreReply, StoreRequest};
use task_manager_backend::task::{
    answer_create, answer_delete, answer_list, answer_update, create_task, delete_task, get_tasks,
    update_done, update_done_at, update_due_date, update_priority, update_title, CreateTask,
    Priority, Subtask, Task,
};
use task_manager_backend::time::Timestamp;

fn instant(secs: i64, nanos: u32) -> Timestamp {
    Timestamp { secs, nanos }
}

fn add(store: &mut MemoryStore, id: &str, title: &str, priority: Priority) {
    let asked = create_task(CreateTask { title: title.to_string(), priority, due: None }).unwrap();
    let reply = store.perform(&asked, id);
    assert_eq!(answer_create(&reply), Ok(id.to_string()));
}

fn list(store: &mut MemoryStore) -> Vec<db_types::Task> {
    let reply = store.perform(&get_tasks(), "unused");
    answer_list(reply).unwrap()
}

fn one(store: &mut MemoryStore, id: &str) -> db_types::Task {
    let mut found: Vec<db_types::Task> = list(store).into_iter().filter(|task| task.id == id).collect();
    assert_eq!(found.len(), 1);
    found.remove(0)
}

#[test]
fn a_new_store_lists_nothing() {
    let mut store = MemoryStore::new();
    assert_eq!(list(&mut store), Vec::new());
}

#[test]
fn created_task_is_listed_once_as_sent() {
    let mut store = MemoryStore::new();
    let asked = create_task(CreateTask { title: "Buy milk".to_string(), priority: Priority::Medium, due: None }).unwrap();
    let reply = store.perform(&asked, "t1");
    assert_eq!(answer_create(&reply), Ok("t1".to_string()));
    let all = list(&mut store);
    assert_eq!(
        all,
        vec![db_types::Task {
            id: "t1".to_string(),
            title: "Buy milk".to_string(),
            priority: Priority::Medium,
            due: None,
            sub: Vec::new(),
            done: false,
            done_at: None,
        }]
    );
    assert_eq!(all.iter().filter(|task| task.title == "Buy milk").count(), 1);
}

#[test]
fn listing_keeps_the_order_of_creation() {
    let mut store = MemoryStore::new();
    add(&mut store, "b", "second letter", Priority::Low);
    add(&mut store, "a", "first letter", Priority::High);
    add(&mut store, "c", "third letter", Priority::Urgent);
    let ids: Vec<String> = list(&mut store).into_iter().map(|task| task.id).collect();
    assert_eq!(ids, vec!["b".to_string(), "a".to_string(), "c".to_string()]);
}

#[test]
fn store_gives_out_no_id_twice() {
    let mut store = MemoryStore::new();
    add(&mut store, "t1", "one", Priority::Low);
    let asked = create_task(CreateTask { title: "two".to_string(), priority: Priority::Low, due: None }).unwrap();
    let reply = store.perform(&asked, "t1");
    assert_eq!(reply, StoreReply::Failed);
    assert_eq!(answer_create(&reply), Err(ApiError::Internal));
    assert_eq!(list(&mut store).len(), 1);
    assert_eq!(one(&mut store, "t1").title, "one");
}

#[test]
fn deleting_an_unknown_id_is_not_found() {
    let mut store = MemoryStore::new();
    add(&mut store, "t1", "one", Priority::Low);
    let reply = store.perform(&delete_task(Some("t2".to_string())).unwrap(), "unused");
    assert_eq!(reply, StoreReply::Deleted(false));
    assert_eq!(answer_delete(&reply), Err(ApiError::NotFound));
    assert_eq!(list(&mut store).len(), 1);
}

#[test]
fn deleting_twice_succeeds_then_is_not_found() {
    let mut store = MemoryStore::new();
    add(&mut store, "t1", "one", Priority::Low);
    add(&mut store, "t2", "two", Priority::Low);
    add(&mut store, "t3", "three", Priority::Low);
    let asked = delete_task(Some("t2".to_string())).unwrap();
    let first = store.perform(&asked, "unused");
    assert_eq!(answer_delete(&first), Ok(()));
    let ids: Vec<String> = list(&mut store).into_iter().map(|task| task.id).collect();
    assert_eq!(ids, vec!["t1".to_string(), "t3".to_string()]);
    let second = store.perform(&asked, "unused");
    assert_eq!(answer_delete(&second), Err(ApiError::NotFound));
    assert_eq!(list(&mut store).len(), 2);
}

#[test]
fn marking_done_shows_done_with_the_instant() {
    let mut store = MemoryStore::new();
    add(&mut store, "t1", "one", Priority::Low);
    add(&mut store, "t2", "two", Priority::Low);
    let start = instant(1_700_000_000, 0);
    let now = instant(1_700_000_000, 250);
    let asked = update_done_at(Some("t2".to_string()), true, now).unwrap();
    let reply = store.perform(&asked, "unused");
    assert_eq!(answer_update(&reply), Ok(()));
    let shown = one(&mut store, "t2");
    assert!(shown.done);
    assert_eq!(shown.done_at, Some(now));
    assert!(start.is_not_after(&shown.done_at.unwrap()));
    let untouched = one(&mut store, "t1");
    assert!(!untouched.done);
    assert_eq!(untouched.done_at, None);
}

#[test]
fn marking_done_by_the_clock_stamps_no_earlier_than_the_call() {
    let mut store = MemoryStore::new();
    add(&mut store, "t1", "one", Priority::Low);
    let begun = chrono::Utc::now();
    let start = instant(begun.timestamp(), begun.timestamp_subsec_nanos());
    let asked = update_done(Some("t1".to_string()), true).unwrap();
    let reply = store.perform(&asked, "unused");
    assert_eq!(answer_update(&reply), Ok(()));
    let shown = one(&mut store, "t1");
    assert!(shown.done);
    assert!(start.is_not_after(&shown.done_at.unwrap()));
}

#[test]
fn marking_not_done_leaves_the_instant() {
    let mut store = MemoryStore::new();
    add(&mut store, "t1", "one", Priority::Low);
    let now = instant(1_700_000_000, 250);
    store.perform(&update_done_at(Some("t1".to_string()), true, now).unwrap(), "unused");
    let reply = store.perform(&update_done(Some("t1".to_string()), false).unwrap(), "unused");
    assert_eq!(answer_update(&reply), Ok(()));
    let shown = one(&mut store, "t1");
    assert!(!shown.done);
    assert_eq!(shown.done_at, Some(now));
}

#[test]
fn marking_done_again_moves_the_instant() {
    let mut store = MemoryStore::new();
    add(&mut store, "t1", "one", Priority::Low);
    store.perform(&update_done_at(Some("t1".to_string()), true, instant(100, 0)).unwrap(), "unused");
    store.perform(&update_done_at(Some("t1".to_string()), true, instant(200, 0)).unwrap(), "unused");
    assert_eq!(one(&mut store, "t1").done_at, Some(instant(200, 0)));
}

#[test]
fn same_priority_twice_succeeds_twice() {
    let mut store = MemoryStore::new();
    add(&mut store, "t1", "one", Priority::Urgent);
    let asked = update_priority(Some("t1".to_string()), Priority::Low).unwrap();
    let first = store.perform(&asked, "unused");
    assert_eq!(answer_update(&first), Ok(()));
    let once = list(&mut store);
    let second = store.perform(&asked, "unused");
    assert_eq!(answer_update(&second), Ok(()));
    assert_eq!(first, second);
    assert_eq!(list(&mut store), once);
    assert_eq!(one(&mut store, "t1").priority, Priority::Low);
}

#[test]
fn updating_an_unknown_id_is_not_found() {
    let mut store = MemoryStore::new();
    add(&mut store, "t1", "one", Priority::Urgent);
    let before = list(&mut store);
    let requests = vec![
        update_title(Some("zz".to_string()), "new".to_string()).unwrap(),
        update_priority(Some("zz".to_string()), Priority::Low).unwrap(),
        update_due_date(Some("zz".to_string()), None).unwrap(),
        update_done_at(Some("zz".to_string()), true, instant(1, 1)).unwrap(),
        update_done_at(Some("zz".to_string()), false, instant(1, 1)).unwrap(),
    ];
    for asked in requests {
        let reply = store.perform(&asked, "unused");
        assert_eq!(reply, StoreReply::Patched(None));
        assert_eq!(answer_update(&reply), Err(ApiError::NotFound));
    }
    assert_eq!(list(&mut store), before);
}

#[test]
fn each_update_changes_its_field_alone() {
    let mut store = MemoryStore::new();
    add(&mut store, "t1", "one", Priority::Urgent);
    let title = store.perform(&update_title(Some("t1".to_string()), "uno".to_string()).unwrap(), "unused");
    assert_eq!(answer_update(&title), Ok(()));
    let due = store.perform(&update_due_date(Some("t1".to_string()), Some(instant(9, 9))).unwrap(), "unused");
    assert_eq!(answer_update(&due), Ok(()));
    let priority = store.perform(&update_priority(Some("t1".to_string()), Priority::High).unwrap(), "unused");
    assert_eq!(
        priority,
        StoreReply::Patched(Some(db_types::Task {
            id: "t1".to_string(),
            title: "uno".to_string(),
            priority: Priority::High,
            due: Some(instant(9, 9)),
            sub: Vec::new(),
            done: false,
            done_at: None,
        }))
    );
    store.perform(&update_due_date(Some("t1".to_string()), None).unwrap(), "unused");
    assert_eq!(one(&mut store, "t1").due, None);
    assert_eq!(one(&mut store, "t1").title, "uno");
}

#[test]
fn patches_apply_in_their_order() {
    let mut store = MemoryStore::new();
    add(&mut store, "t1", "one", Priority::Urgent);
    let asked = StoreRequest::Patch(
        "t1".to_string(),
        vec![
            FieldPatch::Title("first".to_string()),
            FieldPatch::DoneAt(instant(1, 0)),
            FieldPatch::Title("last".to_string()),
            FieldPatch::DoneAt(instant(2, 0)),
            FieldPatch::Done(true),
        ],
    );
    store.perform(&asked, "unused");
    let shown = one(&mut store, "t1");
    assert_eq!(shown.title, "last");
    assert_eq!(shown.done_at, Some(instant(2, 0)));
    assert!(shown.done);
    let nothing = StoreRequest::Patch("t1".to_string(), Vec::new());
    assert_eq!(answer_update(&store.perform(&nothing, "unused")), Ok(()));
    assert_eq!(one(&mut store, "t1"), shown);
}

#[test]
fn steps_keep_their_order_and_depth() {
    let leaf = Subtask { title: "leaf".to_string(), done: true, sub: Vec::new() };
    let first = Subtask { title: "first".to_string(), done: false, sub: vec![leaf] };
    let second = Subtask { title: "second".to_string(), done: false, sub: Vec::new() };
    let task = Task {
        title: "with steps".to_string(),
        priority: Priority::Medium,
        due: None,
        sub: vec![first, second],
        done: false,
        done_at: None,
    };
    let mut store = MemoryStore::new();
    store.perform(&StoreRequest::Create(task.clone()), "t1");
    store.perform(&update_title(Some("t1".to_string()), "renamed".to_string()).unwrap(), "unused");
    let shown = one(&mut store, "t1");
    assert_eq!(shown.title, "renamed");
    assert_eq!(shown.sub, task.sub);
    assert_eq!(shown.sub[0].sub[0].title, "leaf");
}

#[test]
fn ids_are_compared_exactly() {
    let mut store = MemoryStore::new();
    add(&mut store, "t1", "one", Priority::Low);
    for other in ["T1", "t1 ", "t", "t11", ""] {
        let reply = store.perform(&delete_task(Some(other.to_string())).unwrap(), "unused");
        assert_eq!(reply, StoreReply::Deleted(false), "{:?}", other);
    }
    assert_eq!(list(&mut store).len(), 1);
}
