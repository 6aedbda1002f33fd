//! The service itself: its route table, and what a client can rely on.

use vstd::prelude::*;
use crate::handlers::Handler;
use crate::http::{Method, ResponseView, Status, json_media_type, response_to};
use crate::json::{encoded, lemma_plain_text_is_quoted};
use crate::router::{RouteKey, Router, dispatched};

verus! {

/// The routes of the service.
pub open spec fn route_table() -> Map<RouteKey, Handler> {
    map![
        (Method::Get, "/"@) => Handler::Hello,
        (Method::Get, "/todo"@) => Handler::TodoHeader,
        (Method::Get, "/todo/school"@) => Handler::TodoSchool,
        (Method::Get, "/todo/watch"@) => Handler::TodoWatch,
        (Method::Get, "/todo/read"@) => Handler::TodoRead,
        (Method::Get, "/todo/make"@) => Handler::TodoMake,
    ]
}

/// What the service answers to a request for `path` with `method`.
pub open spec fn answer(method: Method, path: Seq<char>) -> ResponseView {
    response_to(dispatched(route_table(), method, path))
}

/// A `200 OK` response that carries `body` as JSON.
pub open spec fn json_reply(body: Seq<char>) -> ResponseView {
    ResponseView { status: Status { code: 200 }, content_type: Some(json_media_type()), body }
}

/// The six paths differ from one another.
proof fn lemma_paths_differ()
    ensures
        "/"@.len() == 1,
        "/todo"@.len() == 5,
        "/todo/school"@.len() == 12,
        "/todo/watch"@.len() == 11,
        "/todo/read"@.len() == 10,
        "/todo/make"@.len() == 10,
        "/todo/read"@[6] != "/todo/make"@[6],
{
    reveal_strlit("/");
    reveal_strlit("/todo");
    reveal_strlit("/todo/school");
    reveal_strlit("/todo/watch");
    reveal_strlit("/todo/read");
    reveal_strlit("/todo/make");
}

/// Builds the route table of the service.
pub fn rocket() -> (router: Router)
    ensures
        router@ == route_table(),
{
    let mut router = Router::new();
    proof {
        lemma_paths_differ();
    }
    router.register(Method::Get, "/", Handler::Hello);
    router.register(Method::Get, "/todo", Handler::TodoHeader);
    router.register(Method::Get, "/todo/school", Handler::TodoSchool);
    router.register(Method::Get, "/todo/watch", Handler::TodoWatch);
    router.register(Method::Get, "/todo/read", Handler::TodoRead);
    router.register(Method::Get, "/todo/make", Handler::TodoMake);
    router
}

/// `encoded(text)` is `text` between quotation marks, for each sentence a
/// handler answers with.
proof fn lemma_sentences_are_quoted()
    ensures
        encoded("Rocket server is running"@) == "\"Rocket server is running\""@,
        encoded("Todo is working"@) == "\"Todo is working\""@,
        encoded("school todo sample"@) == "\"school todo sample\""@,
        encoded("to watch sample"@) == "\"to watch sample\""@,
        encoded("to read sample"@) == "\"to read sample\""@,
        encoded("to make sample"@) == "\"to make sample\""@,
{
    reveal_strlit("Rocket server is running");
    reveal_strlit("\"Rocket server is running\"");
    lemma_plain_text_is_quoted("Rocket server is running"@);
    reveal_strlit("Todo is working");
    reveal_strlit("\"Todo is working\"");
    lemma_plain_text_is_quoted("Todo is working"@);
    reveal_strlit("school todo sample");
    reveal_strlit("\"school todo sample\"");
    lemma_plain_text_is_quoted("school todo sample"@);
    reveal_strlit("to watch sample");
    reveal_strlit("\"to watch sample\"");
    lemma_plain_text_is_quoted("to watch sample"@);
    reveal_strlit("to read sample");
    reveal_strlit("\"to read sample\"");
    lemma_plain_text_is_quoted("to read sample"@);
    reveal_strlit("to make sample");
    reveal_strlit("\"to make sample\"");
    lemma_plain_text_is_quoted("to make sample"@);
}

/// Every route of the service is answered with `200 OK`, the JSON media type
/// and its sentence as a JSON string, character for character. The answer is
/// a function of the request alone, so repeating a request repeats the answer.
pub proof fn lemma_routes_answer_their_sentence()
    ensures
        answer(Method::Get, "/"@) == json_reply("\"Rocket server is running\""@),
        answer(Method::Get, "/todo"@) == json_reply("\"Todo is working\""@),
        answer(Method::Get, "/todo/school"@) == json_reply("\"school todo sample\""@),
        answer(Method::Get, "/todo/watch"@) == json_reply("\"to watch sample\""@),
        answer(Method::Get, "/todo/read"@) == json_reply("\"to read sample\""@),
        answer(Method::Get, "/todo/make"@) == json_reply("\"to make sample\""@),
{
    lemma_paths_differ();
    lemma_sentences_are_quoted();
}

/// Two responses to the same request are the same, byte for byte: nothing is
/// kept between requests.
pub proof fn lemma_answers_are_repeatable(
    method: Method,
    path: Seq<char>,
    first: ResponseView,
    second: ResponseView,
)
    requires
        first == answer(method, path),
        second == answer(method, path),
    ensures
        first == second,
        first.body == second.body,
{
}

/// A request that matches no route of the service, because its path is not
/// in the table or its method is not the route's, is answered with
/// `404 Not Found`.
pub proof fn lemma_unknown_route_is_not_found(method: Method, path: Seq<char>)
    requires
        !route_table().contains_key((method, path)),
    ensures
        answer(method, path).status == (Status { code: 404 }),
{
}

/// A request that matches a route of the service is answered with `200 OK`
/// and the content type `application/json`.
pub proof fn lemma_known_route_is_json(method: Method, path: Seq<char>)
    requires
        route_table().contains_key((method, path)),
    ensures
        answer(method, path).status == (Status { code: 200 }),
        answer(method, path).content_type == Some("application/json"@),
{
}

} // verus!
