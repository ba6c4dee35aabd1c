use todo_service::router::{parse_id, percent_decode, route, Method, Route, RouteError};

#[test]
fn probes_route() {
    assert_eq!(route(Method::Get, b"/alive"), Ok(Route::Alive));
    assert_eq!(route(Method::Get, b"/ready"), Ok(Route::Ready));
    assert_eq!(route(Method::Post, b"/alive"), Err(RouteError::MethodNotAllowed));
}

#[test]
fn collection_routes() {
    assert_eq!(route(Method::Get, b"/v1/todos"), Ok(Route::List));
    assert_eq!(route(Method::Post, b"/v1/todos"), Ok(Route::Create));
    assert_eq!(route(Method::Delete, b"/v1/todos"), Err(RouteError::MethodNotAllowed));
}

#[test]
fn item_routes() {
    assert_eq!(route(Method::Get, b"/v1/todos/1"), Ok(Route::Read(1)));
    assert_eq!(route(Method::Put, b"/v1/todos/1"), Ok(Route::Update(1)));
    assert_eq!(route(Method::Delete, b"/v1/todos/999"), Ok(Route::Delete(999)));
    assert_eq!(route(Method::Post, b"/v1/todos/1"), Err(RouteError::MethodNotAllowed));
    assert_eq!(route(Method::Get, b"/v1/todos/abc"), Err(RouteError::InvalidId));
}

#[test]
fn unknown_paths() {
    assert_eq!(route(Method::Get, b"/"), Err(RouteError::NotFound));
    assert_eq!(route(Method::Get, b"/v1/todos/"), Err(RouteError::NotFound));
    assert_eq!(route(Method::Get, b"/v1/todos/1/x"), Err(RouteError::NotFound));
    assert_eq!(route(Method::Get, b"/v2/todos"), Err(RouteError::NotFound));
    assert_eq!(route(Method::Other, b"/nothing"), Err(RouteError::NotFound));
}

#[test]
fn ids_parse_as_i64() {
    assert_eq!(parse_id(b"0"), Some(0));
    assert_eq!(parse_id(b"42"), Some(42));
    assert_eq!(parse_id(b"+42"), Some(42));
    assert_eq!(parse_id(b"-42"), Some(-42));
    assert_eq!(parse_id(b"9223372036854775807"), Some(i64::MAX));
    assert_eq!(parse_id(b"9223372036854775808"), None);
    assert_eq!(parse_id(b"-9223372036854775808"), Some(i64::MIN));
    assert_eq!(parse_id(b"-9223372036854775809"), None);
    assert_eq!(parse_id(b"99999999999999999999999"), None);
    assert_eq!(parse_id(b""), None);
    assert_eq!(parse_id(b"-"), None);
    assert_eq!(parse_id(b"+"), None);
    assert_eq!(parse_id(b"1a"), None);
    assert_eq!(parse_id(b" 1"), None);
}

#[test]
fn head_is_served_as_get() {
    assert_eq!(route(Method::Head, b"/alive"), Ok(Route::Alive));
    assert_eq!(route(Method::Head, b"/v1/todos"), Ok(Route::List));
    assert_eq!(route(Method::Head, b"/v1/todos/3"), Ok(Route::Read(3)));
}

#[test]
fn id_segment_is_percent_decoded() {
    assert_eq!(route(Method::Get, b"/v1/todos/%31"), Ok(Route::Read(1)));
    assert_eq!(route(Method::Delete, b"/v1/todos/%2d%37"), Ok(Route::Delete(-7)));
    assert_eq!(route(Method::Get, b"/v1/todos/%2F1"), Err(RouteError::InvalidId));
    assert_eq!(route(Method::Get, b"/v1/todos/%3"), Err(RouteError::InvalidId));
}

#[test]
fn percent_decoding() {
    assert_eq!(percent_decode(b"a%20b"), b"a b".to_vec());
    assert_eq!(percent_decode(b"%4A%6b"), b"Jk".to_vec());
    assert_eq!(percent_decode(b"%zz%"), b"%zz%".to_vec());
    assert_eq!(percent_decode(b"%4"), b"%4".to_vec());
    assert_eq!(percent_decode(b""), Vec::<u8>::new());
}
