use task_service::handlers::{
    create_task, delete_task, health_check, read_tasks, update_task, StoreError, CREATED,
    INTERNAL_SERVER_ERROR, NOT_FOUND, NO_CONTENT, OK,
};
use task_service::table::TaskTable;
use task_service::task::{CreateTask, Status, Task};

fn payload(title: &str, description: &str) -> CreateTask {
    CreateTask::new(title.to_string(), description.to_string())
}

fn is_v4(id: u128) -> bool {
    id & 0xF000C000000000000000u128 == 0x40008000000000000000u128
}

#[test]
fn status_text_round_trip() {
    for s in [Status::Todo, Status::Doing, Status::Done] {
        assert_eq!(Status::from_text(s.as_text()), Some(s));
    }
    assert_eq!(Status::Todo.as_text(), "Todo");
    assert_eq!(Status::Doing.as_text(), "Doing");
    assert_eq!(Status::Done.as_text(), "Done");
    assert_eq!(Status::from_text("todo"), None);
    assert_eq!(Status::from_text(""), None);
    assert_eq!(Status::from_text("Done "), None);
}

#[test]
fn new_task_is_fresh() {
    let t = Task::new("buy milk".to_string(), "2%".to_string());
    assert!(is_v4(t.id));
    assert_eq!(t.title, "buy milk");
    assert_eq!(t.description, "2%");
    assert_eq!(t.status, Status::Todo);
    assert_eq!(t.created_at, t.updated_at);
    // after 2020-01-01
    assert!(t.created_at > 1_577_836_800_000_000);
}

#[test]
fn new_ids_differ() {
    let a = Task::new("a".to_string(), "".to_string());
    let b = Task::new("a".to_string(), "".to_string());
    assert_ne!(a.id, b.id);
    assert_ne!(a.id, 0);
}

#[test]
fn from_parts_sets_every_field() {
    let t = Task::from_parts(7, "t".to_string(), "d".to_string(), 1000);
    assert_eq!(t.id, 7);
    assert_eq!(t.title, "t");
    assert_eq!(t.description, "d");
    assert_eq!(t.status, Status::Todo);
    assert_eq!(t.created_at, 1000);
    assert_eq!(t.updated_at, 1000);
}

#[test]
fn revise_keeps_id_status_created() {
    let mut t = Task::from_parts(7, "t".to_string(), "d".to_string(), 1000);
    t.status = Status::Doing;
    t.revise(&payload("t2", "d2"), 2000);
    assert_eq!(t.id, 7);
    assert_eq!(t.title, "t2");
    assert_eq!(t.description, "d2");
    assert_eq!(t.status, Status::Doing);
    assert_eq!(t.created_at, 1000);
    assert_eq!(t.updated_at, 2000);
    assert!(t.updated_at > t.created_at);
}

#[test]
fn empty_table_lists_nothing() {
    let table = TaskTable::new();
    assert_eq!(table.len(), 0);
    assert!(table.list().is_empty());
}

#[test]
fn list_after_creates_has_every_id() {
    let mut table = TaskTable::new();
    let mut ids = Vec::new();
    for i in 0..5u32 {
        let t = Task::new(format!("task {}", i), "".to_string());
        ids.push(t.id);
        assert!(table.insert(t));
    }
    let listed = table.list();
    assert_eq!(listed.len(), 5);
    for (t, id) in listed.iter().zip(ids.iter()) {
        assert_eq!(t.id, *id);
    }
}

#[test]
fn duplicate_id_is_refused() {
    let mut table = TaskTable::new();
    assert!(table.insert(Task::from_parts(1, "a".to_string(), "".to_string(), 10)));
    assert!(!table.insert(Task::from_parts(1, "b".to_string(), "".to_string(), 20)));
    let listed = table.list();
    assert_eq!(listed.len(), 1);
    assert_eq!(listed[0].title, "a");
}

#[test]
fn update_missing_is_not_found() {
    let mut table = TaskTable::new();
    assert!(table.insert(Task::from_parts(1, "a".to_string(), "x".to_string(), 10)));
    let n = table.update(2, &payload("b", "y"), 20);
    assert_eq!(n, 0);
    assert_eq!(update_task(Ok(n)), NOT_FOUND);
    let listed = table.list();
    assert_eq!(listed.len(), 1);
    assert_eq!(listed[0].title, "a");
    assert_eq!(listed[0].description, "x");
    assert_eq!(listed[0].updated_at, 10);
}

#[test]
fn update_existing_sets_only_its_fields() {
    let mut table = TaskTable::new();
    assert!(table.insert(Task::from_parts(1, "a".to_string(), "x".to_string(), 10)));
    assert!(table.insert(Task::from_parts(2, "b".to_string(), "y".to_string(), 11)));
    let n = table.update(2, &payload("c", "z"), 50);
    assert_eq!(n, 1);
    assert_eq!(update_task(Ok(n)), OK);
    let listed = table.list();
    assert_eq!(listed[0].title, "a");
    assert_eq!(listed[0].updated_at, 10);
    assert_eq!(listed[1].id, 2);
    assert_eq!(listed[1].title, "c");
    assert_eq!(listed[1].description, "z");
    assert_eq!(listed[1].status, Status::Todo);
    assert_eq!(listed[1].created_at, 11);
    assert_eq!(listed[1].updated_at, 50);
}

#[test]
fn delete_removes_row() {
    let mut table = TaskTable::new();
    assert!(table.insert(Task::from_parts(1, "a".to_string(), "".to_string(), 10)));
    assert!(table.insert(Task::from_parts(2, "b".to_string(), "".to_string(), 10)));
    assert!(table.insert(Task::from_parts(3, "c".to_string(), "".to_string(), 10)));
    let n = table.delete(2);
    assert_eq!(n, 1);
    assert_eq!(delete_task(Ok(n)), NO_CONTENT);
    let ids: Vec<u128> = table.list().iter().map(|t| t.id).collect();
    assert_eq!(ids, vec![1, 3]);
    let n = table.delete(2);
    assert_eq!(n, 0);
    assert_eq!(delete_task(Ok(n)), NOT_FOUND);
    assert_eq!(table.len(), 2);
}

#[test]
fn response_codes() {
    assert_eq!(health_check(), 200);
    assert_eq!(update_task(Ok(3)), 200);
    assert_eq!(update_task(Ok(0)), 404);
    assert_eq!(update_task(Err(StoreError)), 500);
    assert_eq!(delete_task(Ok(1)), 204);
    assert_eq!(delete_task(Err(StoreError)), INTERNAL_SERVER_ERROR);
    let t = Task::from_parts(9, "t".to_string(), "d".to_string(), 5);
    match create_task(t, Ok(1)) {
        Ok((code, body)) => {
            assert_eq!(code, CREATED);
            assert_eq!(body.id, 9);
        }
        Err(_) => panic!("expected success"),
    }
    let t = Task::from_parts(9, "t".to_string(), "d".to_string(), 5);
    assert!(matches!(create_task(t, Err(StoreError)), Err(500)));
    assert!(matches!(read_tasks(Err(StoreError)), Err(500)));
    let rows = vec![Task::from_parts(1, "a".to_string(), "".to_string(), 1)];
    match read_tasks(Ok(rows)) {
        Ok(v) => assert_eq!(v.len(), 1),
        Err(_) => panic!("expected success"),
    }
    match read_tasks(Ok(Vec::new())) {
        Ok(v) => assert!(v.is_empty()),
        Err(_) => panic!("expected success"),
    }
}

#[test]
fn buy_milk_scenario() {
    let mut table = TaskTable::new();
    let t = Task::new("buy milk".to_string(), "2%".to_string());
    let id = t.id;
    let (code, body) = match create_task(t, Ok(1)) {
        Ok(r) => r,
        Err(_) => panic!("expected success"),
    };
    assert_eq!(code, 201);
    assert!(is_v4(body.id));
    assert_eq!(body.title, "buy milk");
    assert_eq!(body.description, "2%");
    assert_eq!(body.status.as_text(), "Todo");
    assert_eq!(body.created_at, body.updated_at);
    assert!(table.insert(body));
    let later = table.list()[0].created_at + 1;
    let n = table.update(id, &payload("buy oat milk", "2%"), later);
    assert_eq!(update_task(Ok(n)), 200);
    let listed = table.list();
    assert_eq!(listed.len(), 1);
    assert_eq!(listed[0].title, "buy oat milk");
    assert!(listed[0].updated_at > listed[0].created_at);
}
