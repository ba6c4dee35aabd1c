use todo_service::error::Error;
use todo_service::store::TodoStore;
use todo_service::todo::{CreateTodo, Timestamp, Todo, UpdateTodo};

fn t(secs: i64) -> Timestamp {
    Timestamp::new(secs, 0)
}

fn create(store: &mut TodoStore, body: &str, now: Timestamp) -> Todo {
    Todo::create(store, CreateTodo::new(body.to_string()), now).ok().unwrap()
}

#[test]
fn create_assigns_first_id() {
    let mut store = TodoStore::new();
    let t0 = t(1_700_000_000);
    let todo = create(&mut store, "buy milk", t0);
    assert_eq!(todo.id(), 1);
    assert_eq!(todo.body(), "buy milk");
    assert!(!todo.completed());
    assert_eq!(todo.created_at(), t0);
}

#[test]
fn create_stamps_no_earlier_than_start() {
    let mut store = TodoStore::new();
    let start = Timestamp::new(100, 500);
    let now = Timestamp::new(100, 700);
    let todo = create(&mut store, "x", now);
    assert!(todo.created_at().no_earlier_than(&start));
    assert!(!Timestamp::new(100, 499).no_earlier_than(&start));
    assert!(Timestamp::new(101, 0).no_earlier_than(&start));
}

#[test]
fn read_after_create_is_identical() {
    let mut store = TodoStore::new();
    let t0 = t(10);
    let created = create(&mut store, "buy milk", t0);
    let read = Todo::read(&store, created.id()).ok().unwrap();
    assert_eq!(read.id(), created.id());
    assert_eq!(read.body(), created.body());
    assert_eq!(read.completed(), created.completed());
    assert_eq!(read.created_at(), created.created_at());
}

#[test]
fn list_after_n_creates() {
    let mut store = TodoStore::new();
    assert_eq!(Todo::list(&store).ok().unwrap().len(), 0);
    for k in 0..5 {
        create(&mut store, &format!("item {}", k), t(k));
    }
    let all = Todo::list(&store).ok().unwrap();
    assert_eq!(all.len(), 5);
    let mut ids: Vec<i64> = all.iter().map(|x| x.id()).collect();
    ids.sort();
    assert_eq!(ids, vec![1, 2, 3, 4, 5]);
}

#[test]
fn update_replaces_fields_keeps_identity() {
    let mut store = TodoStore::new();
    let t0 = t(10);
    let created = create(&mut store, "buy milk", t0);
    let updated = Todo::update(&mut store, 1, UpdateTodo::new("buy oat milk".to_string(), true), t(20))
        .ok()
        .unwrap();
    assert_eq!(updated.id(), 1);
    assert_eq!(updated.body(), "buy oat milk");
    assert!(updated.completed());
    assert_eq!(updated.created_at(), created.created_at());
    let read = Todo::read(&store, 1).ok().unwrap();
    assert_eq!(read.body(), "buy oat milk");
    assert!(read.completed());
    assert_eq!(read.created_at(), t0);
}

#[test]
fn update_missing_is_not_found() {
    let mut store = TodoStore::new();
    create(&mut store, "a", t(1));
    let r = Todo::update(&mut store, 999, UpdateTodo::new("b".to_string(), true), t(2));
    assert!(matches!(r, Err(Error::NotFound)));
    assert_eq!(Todo::read(&store, 1).ok().unwrap().body(), "a");
}

#[test]
fn delete_then_read_is_not_found() {
    let mut store = TodoStore::new();
    create(&mut store, "buy milk", t(1));
    assert!(Todo::delete(&mut store, 1).is_ok());
    assert!(matches!(Todo::read(&store, 1), Err(Error::NotFound)));
}

#[test]
fn delete_is_idempotent() {
    let mut store = TodoStore::new();
    create(&mut store, "a", t(1));
    create(&mut store, "b", t(2));
    assert!(Todo::delete(&mut store, 999).is_ok());
    assert!(Todo::delete(&mut store, 1).is_ok());
    assert!(Todo::delete(&mut store, 1).is_ok());
    let all = Todo::list(&store).ok().unwrap();
    assert_eq!(all.len(), 1);
    assert_eq!(all[0].id(), 2);
}

#[test]
fn read_never_created_is_not_found() {
    let store = TodoStore::new();
    assert!(matches!(Todo::read(&store, 999), Err(Error::NotFound)));
}

#[test]
fn deleted_id_is_not_reused() {
    let mut store = TodoStore::new();
    create(&mut store, "a", t(1));
    assert!(Todo::delete(&mut store, 1).is_ok());
    let next = create(&mut store, "b", t(2));
    assert_eq!(next.id(), 2);
}

#[test]
fn write_models_expose_fields() {
    let c = CreateTodo::new("hello".to_string());
    assert_eq!(c.body(), "hello");
    let u = UpdateTodo::new("bye".to_string(), true);
    assert_eq!(u.body(), "bye");
    assert!(u.completed());
    let todo = Todo::new(7, "z".to_string(), true, t(3));
    let copy = todo.clone();
    assert_eq!(copy.id(), 7);
    assert_eq!(copy.body(), "z");
    assert!(copy.completed());
    assert_eq!(copy.created_at(), t(3));
}
