use todo_backend::{hello, todoRead, Handler, Method, Router, Status};

#[test]
fn an_empty_table_finds_nothing() {
    let router = Router::new();
    assert_eq!(router.lookup(Method::Get, "/"), None);
    assert_eq!(router.dispatch(Method::Get, "/"), Err(Status::not_found()));
    assert_eq!(router.handle(Method::Get, "/").status.code, 404);
}

#[test]
fn a_registered_route_is_found() {
    let mut router = Router::new();
    assert!(router.register(Method::Get, "/read", Handler::TodoRead));
    assert_eq!(router.lookup(Method::Get, "/read"), Some(Handler::TodoRead));
    assert_eq!(router.dispatch(Method::Get, "/read"), todoRead());
    assert_eq!(router.handle(Method::Get, "/read").body, "\"to read sample\"");
}

#[test]
fn a_route_is_matched_on_method_and_path() {
    let mut router = Router::new();
    assert!(router.register(Method::Get, "/a", Handler::Hello));
    assert!(router.register(Method::Post, "/a", Handler::TodoMake));
    assert!(router.register(Method::Get, "/b", Handler::TodoWatch));
    assert_eq!(router.lookup(Method::Get, "/a"), Some(Handler::Hello));
    assert_eq!(router.lookup(Method::Post, "/a"), Some(Handler::TodoMake));
    assert_eq!(router.lookup(Method::Get, "/b"), Some(Handler::TodoWatch));
    assert_eq!(router.lookup(Method::Post, "/b"), None);
    assert_eq!(router.lookup(Method::Put, "/a"), None);
    assert_eq!(router.lookup(Method::Get, "/c"), None);
}

#[test]
fn a_taken_route_keeps_its_handler() {
    let mut router = Router::new();
    assert!(router.register(Method::Get, "/", Handler::Hello));
    assert!(!router.register(Method::Get, "/", Handler::TodoSchool));
    assert_eq!(router.lookup(Method::Get, "/"), Some(Handler::Hello));
    assert_eq!(router.dispatch(Method::Get, "/"), hello());
}

#[test]
fn registering_leaves_other_routes_alone() {
    let mut router = Router::new();
    assert!(router.register(Method::Get, "/one", Handler::TodoRead));
    assert!(router.register(Method::Get, "/two", Handler::TodoMake));
    assert!(!router.register(Method::Get, "/one", Handler::Hello));
    assert!(router.register(Method::Get, "/three", Handler::TodoWatch));
    assert_eq!(router.lookup(Method::Get, "/one"), Some(Handler::TodoRead));
    assert_eq!(router.lookup(Method::Get, "/two"), Some(Handler::TodoMake));
    assert_eq!(router.lookup(Method::Get, "/three"), Some(Handler::TodoWatch));
}

#[test]
fn paths_with_characters_outside_ascii_are_told_apart() {
    let mut router = Router::new();
    assert!(router.register(Method::Get, "/caf\u{e9}", Handler::Hello));
    assert_eq!(router.lookup(Method::Get, "/caf\u{e9}"), Some(Handler::Hello));
    assert_eq!(router.lookup(Method::Get, "/cafe"), None);
    assert_eq!(router.lookup(Method::Get, "/cafe\u{301}"), None);
}
