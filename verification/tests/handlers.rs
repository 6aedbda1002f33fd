use todo_backend::{
    hello, respond, todoHeader, todoMake, todoRead, todoSchool, todoWatch, Handler, Json, Status,
};

#[test]
fn hello_says_the_server_is_running() {
    assert_eq!(hello(), Ok(Json(String::from("Rocket server is running"))));
}

#[test]
fn todo_header_says_todo_is_working() {
    assert_eq!(todoHeader(), Ok(Json(String::from("Todo is working"))));
}

#[test]
fn todo_school_gives_its_sample() {
    assert_eq!(todoSchool(), Ok(Json(String::from("school todo sample"))));
}

#[test]
fn todo_watch_gives_its_sample() {
    assert_eq!(todoWatch(), Ok(Json(String::from("to watch sample"))));
}

#[test]
fn todo_read_gives_its_sample() {
    assert_eq!(todoRead(), Ok(Json(String::from("to read sample"))));
}

#[test]
fn todo_make_gives_its_sample() {
    assert_eq!(todoMake(), Ok(Json(String::from("to make sample"))));
}

#[test]
fn named_handlers_run_their_functions() {
    assert_eq!(Handler::Hello.call(), hello());
    assert_eq!(Handler::TodoHeader.call(), todoHeader());
    assert_eq!(Handler::TodoSchool.call(), todoSchool());
    assert_eq!(Handler::TodoWatch.call(), todoWatch());
    assert_eq!(Handler::TodoRead.call(), todoRead());
    assert_eq!(Handler::TodoMake.call(), todoMake());
}

#[test]
fn status_codes() {
    assert_eq!(Status::ok().code, 200);
    assert_eq!(Status::not_found().code, 404);
}

#[test]
fn a_payload_is_answered_with_its_json_text() {
    let response = respond(Ok(Json(String::from("say \"hi\""))));
    assert_eq!(response.status, Status::ok());
    assert_eq!(response.content_type.as_deref(), Some("application/json"));
    assert_eq!(response.body, r#""say \"hi\"""#);
}

#[test]
fn a_failure_is_answered_with_its_status_alone() {
    for code in [404u16, 500, 200, 418] {
        let response = respond(Err(Status { code }));
        assert_eq!(response.status.code, code);
        assert_eq!(response.content_type, None);
        assert_eq!(response.body, "");
    }
}
