use todo_service::api::{alive, ping, Bind, Statement};
use todo_service::error::{Error, StoreFault};
use todo_service::todo::{CreateTodo, UpdateTodo};

#[test]
fn alive_is_ok() {
    let r = alive();
    assert_eq!(r.status, 200);
    assert_eq!(r.body, "ok");
}

#[test]
fn ready_when_reachable() {
    let r = ping(Ok(()));
    assert_eq!(r.status, 200);
    assert_eq!(r.body, "ok");
}

#[test]
fn ready_when_unreachable() {
    let r = ping(Err(Error::from_fault(StoreFault::Other("connection refused".to_string()))));
    assert_eq!(r.status, 500);
    assert_eq!(r.body, "connection refused");
}

#[test]
fn fault_mapping() {
    assert!(matches!(Error::from_fault(StoreFault::RowNotFound), Error::NotFound));
    match Error::from_fault(StoreFault::Other("disk I/O error".to_string())) {
        Error::Sqlx(code, detail) => {
            assert_eq!(code, 500);
            assert_eq!(detail, "disk I/O error");
        }
        Error::NotFound => panic!("expected a store failure"),
    }
}

#[test]
fn error_responses() {
    let nf = Error::NotFound.into_response();
    assert_eq!(nf.status, 404);
    assert_eq!(nf.body, "");
    assert_eq!(Error::NotFound.status(), 404);
    let sf = Error::Sqlx(500, "boom".to_string());
    assert_eq!(sf.status(), 500);
    let r = sf.into_response();
    assert_eq!(r.status, 500);
    assert_eq!(r.body, "boom");
}

#[test]
fn sqlx_errors_map() {
    assert!(matches!(Error::from_sqlx(sqlx::Error::RowNotFound), Error::NotFound));
    match Error::from_sqlx(sqlx::Error::PoolTimedOut) {
        Error::Sqlx(code, detail) => {
            assert_eq!(code, 500);
            assert_eq!(detail, sqlx::Error::PoolTimedOut.to_string());
            assert!(!detail.is_empty());
        }
        Error::NotFound => panic!("expected a store failure"),
    }
}

#[test]
fn statements() {
    let list = Statement::list();
    assert_eq!(list.sql(), "select * from todos");
    assert!(list.binds().is_empty());
    assert!(list.returns_rows());

    let read = Statement::read(1);
    assert_eq!(read.sql(), "select * from todos where id = ?");
    assert!(matches!(read.binds()[..], [Bind::Int(1)]));

    let create = Statement::create(&CreateTodo::new("buy milk".to_string()));
    assert_eq!(create.sql(), "insert into todos (body) values (?) returning *");
    match &create.binds()[..] {
        [Bind::Text(b)] => assert_eq!(b, "buy milk"),
        _ => panic!("unexpected binds"),
    }

    let update = Statement::update(1, &UpdateTodo::new("buy oat milk".to_string(), true));
    assert_eq!(
        update.sql(),
        "update todos set body = ?, completed = ?, updated_at = datetime('now') where id = ? returning *"
    );
    match &update.binds()[..] {
        [Bind::Text(b), Bind::Bool(true), Bind::Int(1)] => assert_eq!(b, "buy oat milk"),
        _ => panic!("unexpected binds"),
    }

    let delete = Statement::delete(999);
    assert_eq!(delete.sql(), "delete from todos where id = ?");
    assert!(matches!(delete.binds()[..], [Bind::Int(999)]));
    assert!(!delete.returns_rows());
    assert!(!delete.expects_one_row());
    assert!(!list.expects_one_row());
    assert!(read.expects_one_row());
    assert!(create.expects_one_row());
    assert!(update.expects_one_row());
}
