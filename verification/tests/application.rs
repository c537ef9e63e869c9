use http_routes::error::{ExtractError, HandlerError, MyError, MyErrorLog, MyErrorStruct};
use http_routes::fields::Fields;
use http_routes::handlers::{
    app_name, config, echo, hello, index, index2, index3, index_err_log, index_error,
    index_error_400, index_error_408, index_error_500, index_root, json_info, manual_hello,
    mutable_state,
    path_info_ext, return_json, scoped_config, show_id, AppState, AppStateWithCounter, Handler,
};
use http_routes::json::{frame_name_object, json_response, render_welcome, Info, JsonConfig, MyObj};
use http_routes::lifecycle::{step, Effect, ServerEvent, ServerState};
use http_routes::method::Method;
use http_routes::reply::Reply;
use http_routes::request::{param_at, param_u32, param_u32_at, Context, Request};
use http_routes::response::{Body, ContentType, Response};
use http_routes::router::{Lookup, RouteError, RouteTable, Scope};
use http_routes::server::{
    count_reply, default_response, info_reply, run_handler, Action, App, DefaultPolicy,
    JSON_LIMIT,
};

fn request(method: Method, target: &str, body: &[u8]) -> Request {
    Request::new(method, target, Fields::new(), body.to_vec())
}

fn decode_info(body: &[u8]) -> Option<Info> {
    let value: serde_json::Value = serde_json::from_slice(body).ok()?;
    let username = value.as_object()?.get("username")?.as_str()?;
    Some(Info { username: username.to_string() })
}

/// Carries a request through the application as a server would, with the
/// counter at hand and the body decoded on demand.
fn serve(app: &App, counter: &mut AppStateWithCounter, req: &Request) -> Response {
    match app.plan(req) {
        Action::Reply(response) => response,
        Action::Count => count_reply(counter),
        Action::DecodeInfo => info_reply(app.json_config(), decode_info(req.body())),
    }
}

fn get(app: &App, target: &str) -> Response {
    serve(app, &mut AppStateWithCounter::new(), &request(Method::Get, target, b""))
}

fn text(status: u16, body: &str) -> Response {
    Response { status, content_type: ContentType::PlainText, body: Body::Text(body.to_string()) }
}

fn html(status: u16, body: &str) -> Response {
    Response { status, content_type: ContentType::Html, body: Body::Text(body.to_string()) }
}

fn empty(status: u16) -> Response {
    Response { status, content_type: ContentType::PlainText, body: Body::Empty }
}

fn params(items: &[(&str, &str)]) -> Fields {
    let mut f = Fields::new();
    for (name, value) in items {
        f.push(name.to_string(), value.to_string());
    }
    f
}

#[test]
fn test_index_get() {
    let mut routes: RouteTable<Handler> = RouteTable::new();
    routes.register(Method::Get, "/", Handler::Index).unwrap();
    let state = AppState { app_name: String::new() };
    let app = App::with(routes, DefaultPolicy::Conventional, state, JsonConfig::new(JSON_LIMIT));
    let mut headers = Fields::new();
    headers.push("content-type".to_string(), "text/plain; charset=utf-8".to_string());
    let req = Request::new(Method::Get, "/", headers, Vec::new());
    let resp = serve(&app, &mut AppStateWithCounter::new(), &req);
    assert!(resp.is_success());
}

#[test]
fn test_index_post() {
    let mut routes: RouteTable<Handler> = RouteTable::new();
    routes.register(Method::Get, "/", Handler::Index).unwrap();
    let state = AppState { app_name: String::new() };
    let app = App::with(routes, DefaultPolicy::Conventional, state, JsonConfig::new(JSON_LIMIT));
    let req = request(Method::Post, "/", b"");
    let resp = serve(&app, &mut AppStateWithCounter::new(), &req);
    assert!(resp.is_client_error());
}

#[test]
fn root_says_hello() {
    let app = App::new();
    assert_eq!(get(&app, "/"), text(200, "Hello World!"));
    assert_eq!(hello(), text(200, "Hello World!"));
}

#[test]
fn the_application_has_all_its_routes() {
    assert_eq!(App::new().route_count(), 23);
}

#[test]
fn echo_returns_the_body_byte_for_byte() {
    let app = App::new();
    for body in [&b""[..], b"hello", b"\x00\xff\xfe not utf-8 \x80", &[7u8; 10000][..]] {
        let resp = serve(&app, &mut AppStateWithCounter::new(), &request(Method::Post, "/echo", body));
        assert_eq!(resp.status, 200);
        assert_eq!(resp.body, Body::Bytes(body.to_vec()));
    }
    assert_eq!(echo(vec![1, 2, 3]).body, Body::Bytes(vec![1, 2, 3]));
}

#[test]
fn show_id_echoes_numbers() {
    let app = App::new();
    assert_eq!(get(&app, "/show/42"), text(200, "show_id: 42"));
    assert_eq!(get(&app, "/show/0"), text(200, "show_id: 0"));
    assert_eq!(get(&app, "/show/4294967295"), text(200, "show_id: 4294967295"));
    assert_eq!(get(&app, "/show/007"), text(200, "show_id: 007"));
    assert_eq!(get(&app, "/show/+5"), text(200, "show_id: +5"));
    assert_eq!(get(&app, "/show/0000000000000"), text(200, "show_id: 0000000000000"));
}

#[test]
fn show_id_rejects_what_is_no_number() {
    let app = App::new();
    for target in ["/show/abc", "/show/-1", "/show/4294967296", "/show/1.5", "/show/12a"] {
        let resp = get(&app, target);
        assert_eq!(resp, text(400, "bad request"), "{}", target);
        assert!(resp.is_client_error());
    }
    assert!(get(&app, "/show/").is_client_error());
}

#[test]
fn show_id_handler_reads_the_first_parameter() {
    assert_eq!(show_id(&params(&[("id", "12")])), Ok(text(200, "show_id: 12")));
    assert_eq!(show_id(&params(&[("id", "012"), ("x", "9")])), Ok(text(200, "show_id: 012")));
    assert_eq!(show_id(&params(&[("id", "x")])), Err(ExtractError::BadRequest));
    assert_eq!(show_id(&params(&[])), Err(ExtractError::BadRequest));
}

#[test]
fn test_route_lists_its_values_twice() {
    let app = App::new();
    assert_eq!(get(&app, "/test/a/b/"), text(200, "Test values a b a b"));
    assert_eq!(get(&app, "/test/a/b").status, 404);
    assert_eq!(index3(&params(&[("v1", "x"), ("v2", "y")])), Ok("Test values x y x y".to_string()));
    assert_eq!(index3(&params(&[("v1", "x"), ("w", "y")])), Ok("Test values x  x y".to_string()));
    assert_eq!(index3(&params(&[("v1", "x")])), Err(ExtractError::BadRequest));
    assert_eq!(index3(&params(&[("a", "x"), ("v2", "y")])), Err(ExtractError::BadRequest));
}

#[test]
fn path_info_combines_name_and_id() {
    let app = App::new();
    assert_eq!(get(&app, "/alice/7/index.html"), text(200, "Welcome alice! id: 7"));
    assert_eq!(get(&app, "/alice/seven/index.html"), text(400, "bad request"));
    assert_eq!(
        path_info_ext(&params(&[("username", "bob"), ("id", "31")])),
        Ok("Welcome bob! id: 31".to_string())
    );
    assert_eq!(path_info_ext(&params(&[("username", "bob")])), Err(ExtractError::BadRequest));
    assert_eq!(path_info_ext(&params(&[])), Err(ExtractError::BadRequest));
}

#[test]
fn app_name_comes_from_the_state() {
    assert_eq!(get(&App::new(), "/app_name"), text(200, "Hello Actix Web!"));
    let state = AppState { app_name: "Other".to_string() };
    assert_eq!(app_name(&state), "Hello Other!");
}

#[test]
fn mutable_state_counts_requests() {
    let app = App::new();
    let mut counter = AppStateWithCounter::new();
    for n in 1..=100 {
        let method = if n % 2 == 0 { Method::Post } else { Method::Get };
        let resp = serve(&app, &mut counter, &request(method, "/mutable_state", b""));
        assert_eq!(resp, text(200, &format!("Request number: {}", n)));
    }
    assert_eq!(counter.count(), 100);
}

#[test]
fn counted_values_are_one_to_n_without_gaps() {
    let mut counter = AppStateWithCounter::new();
    let mut seen = Vec::new();
    for _ in 0..50 {
        seen.push(mutable_state(&mut counter));
    }
    let expected: Vec<String> = (1..=50).map(|n| format!("Request number: {}", n)).collect();
    assert_eq!(seen, expected);
    assert!(counter.has_room());
}

#[test]
fn json_info_welcomes_the_user() {
    let app = App::new();
    let req = request(Method::Post, "/json_info", br#"{"username":"alice"}"#);
    assert!(matches!(app.plan(&req), Action::DecodeInfo));
    let resp = serve(&app, &mut AppStateWithCounter::new(), &req);
    assert_eq!(resp, text(200, "Welcome alice!"));
    assert_eq!(json_info(&Info { username: "bob".to_string() }), "Welcome bob!");
    assert_eq!(render_welcome(""), "Welcome !");
}

#[test]
fn json_info_answers_conflict_to_malformed_json() {
    let app = App::new();
    for body in [&b"{"[..], b"", b"[]", br#"{"user":"alice"}"#, br#"{"username":5}"#] {
        let resp = serve(&app, &mut AppStateWithCounter::new(), &request(Method::Post, "/json_info", body));
        assert_eq!(resp, text(409, "bad request"));
    }
    assert_eq!(info_reply(app.json_config(), None), text(409, "bad request"));
}

#[test]
fn json_info_answers_conflict_to_an_oversized_body() {
    let app = App::new();
    let mut body = br#"{"username":""#.to_vec();
    body.extend(std::iter::repeat(b'a').take(5000));
    body.extend_from_slice(br#""}"#);
    assert!(decode_info(&body).is_some());
    let req = request(Method::Post, "/json_info", &body);
    match app.plan(&req) {
        Action::Reply(resp) => assert_eq!(resp, text(409, "bad request")),
        other => panic!("{:?}", other),
    }
}

#[test]
fn json_limit_is_inclusive() {
    let app = App::new();
    assert_eq!(JSON_LIMIT, 4096);
    let at_limit = vec![b' '; 4096];
    let over = vec![b' '; 4097];
    assert!(matches!(app.plan(&request(Method::Post, "/json_info", &at_limit)), Action::DecodeInfo));
    assert!(matches!(app.plan(&request(Method::Post, "/json_info", &over)), Action::Reply(_)));
}

#[test]
fn return_json_sends_the_object() {
    let resp = get(&App::new(), "/return_json");
    assert_eq!(
        resp,
        Response {
            status: 200,
            content_type: ContentType::Json,
            body: Body::Text(r#"{"name":"user"}"#.to_string()),
        }
    );
    assert_eq!(return_json().name, "user");
}

#[test]
fn json_text_escapes_what_json_must_escape() {
    let obj = MyObj { name: "a\"b\\c\nd" };
    assert_eq!(obj.to_json().unwrap(), r#"{"name":"a\"b\\c\nd"}"#);
    assert_ne!(obj.to_json().unwrap(), "{\"name\":a\"b\\c\nd}");
    assert_eq!(MyObj { name: "" }.to_json().unwrap(), r#"{"name":""}"#);
    let req = request(Method::Get, "/return_json", b"");
    assert_eq!(obj.respond_to(&req).content_type, ContentType::Json);
    assert_eq!(obj.respond_to(&req).status, 200);
    assert_eq!(MyObj { name: "tab\there" }.to_json().unwrap(), r#"{"name":"tab\there"}"#);
    assert_eq!(MyObj { name: "\u{1}" }.to_json().unwrap(), r#"{"name":"\u0001"}"#);
    assert_eq!(MyObj { name: "é\u{7f}~ /" }.to_json().unwrap(), "{\"name\":\"é\u{7f}~ /\"}");
}

#[test]
fn json_response_maps_a_failed_encoding_to_an_internal_error() {
    let failure = serde_json::from_str::<serde_json::Value>("{").unwrap_err();
    assert_eq!(json_response(Err(failure)), html(500, "internal error"));
    assert_eq!(
        json_response(Ok("[1]".to_string())),
        Response { status: 200, content_type: ContentType::Json, body: Body::Text("[1]".to_string()) }
    );
    let failure = serde_json::from_str::<serde_json::Value>("{").unwrap_err();
    assert!(frame_name_object(Err(failure)).is_err());
    assert_eq!(frame_name_object(Ok("\"x\"".to_string())).unwrap(), r#"{"name":"x"}"#);
}

#[test]
fn error_routes_map_to_their_status_codes() {
    let app = App::new();
    assert_eq!(get(&app, "/400"), html(400, "bad request"));
    assert_eq!(get(&app, "/408"), html(504, "timeout"));
    assert_eq!(get(&app, "/500"), html(500, "internal error"));
    assert_eq!(get(&app, "/index_error"), text(500, "my error: test"));
    assert!(get(&app, "/400").is_client_error());
    assert!(get(&app, "/408").is_server_error());
    assert!(get(&app, "/500").is_server_error());
}

#[test]
fn declared_errors_have_fixed_codes_and_messages() {
    assert_eq!(MyError::InternalError.status_code(), 500);
    assert_eq!(MyError::BadClientData.status_code(), 400);
    assert_eq!(MyError::Timeout.status_code(), 504);
    assert_eq!(MyError::InternalError.message(), "internal error");
    assert_eq!(MyError::BadClientData.message(), "bad request");
    assert_eq!(MyError::Timeout.message(), "timeout");
    assert_eq!(MyError::Timeout.error_response(), html(504, "timeout"));
    assert_eq!(index_error_400(), Err(MyError::BadClientData));
    assert_eq!(index_error_408(), Err(MyError::Timeout));
    assert_eq!(index_error_500(), Err(MyError::InternalError));
}

#[test]
fn named_errors_map_to_500() {
    let e = index_error().unwrap_err();
    assert_eq!(e.name, "test");
    assert_eq!(e.status_code(), 500);
    assert_eq!(e.message(), "my error: test");
    assert_eq!(e.error_response(), text(500, "my error: test"));
    assert_eq!(MyErrorStruct { name: "" }.message(), "my error: ");
}

#[test]
fn logged_error_renders_its_name() {
    let e = index_err_log().unwrap_err();
    assert_eq!(e.name(), "test error");
    assert_eq!(e.message(), "my error: test error");
    assert_eq!(e.status_code(), 500);
    assert_eq!(e.error_response(), text(500, "my error: test error"));
    assert_eq!(MyErrorLog::new("x").message(), "my error: x");
}

#[test]
fn extraction_errors_are_client_errors() {
    assert_eq!(ExtractError::BadRequest.status_code(), 400);
    assert_eq!(ExtractError::PayloadTooLarge.status_code(), 413);
    assert_eq!(ExtractError::BadRequest.message(), "bad request");
    assert_eq!(ExtractError::PayloadTooLarge.error_response(), text(413, "payload too large"));
}

#[test]
fn scope_routes_answer_distinctly_by_trailing_slash() {
    let app = App::new();
    assert_eq!(get(&app, "/app/index.html"), text(200, "Hello app/index.html"));
    assert_eq!(get(&app, "/app/"), text(200, "Hello app/index"));
    assert_eq!(get(&app, "/app"), text(200, "Hello app"));
    assert_eq!(get(&app, "/app/index.html/").status, 404);
    assert_eq!(index(), "Hello app/index.html");
    assert_eq!(index2(), "Hello app/index");
    assert_eq!(index_root(), "Hello app");
}

#[test]
fn configured_resources_are_served() {
    let app = App::new();
    assert_eq!(get(&app, "/appapp"), text(200, "appapp"));
    assert_eq!(get(&app, "/api/testtest"), text(200, "testtest"));
    assert_eq!(get(&app, "/testtest").status, 404);
    assert_eq!(get(&app, "/root"), text(200, "/root"));
    assert_eq!(get(&app, "/hey"), text(200, "Hey there!"));
    assert_eq!(manual_hello(), text(200, "Hey there!"));
    let head = request(Method::Head, "/appapp", b"");
    assert_eq!(serve(&app, &mut AppStateWithCounter::new(), &head), text(405, "method not allowed"));
    let head = request(Method::Head, "/api/testtest", b"");
    assert_eq!(serve(&app, &mut AppStateWithCounter::new(), &head), text(405, "method not allowed"));
}

#[test]
fn config_registers_get_and_head() {
    let mut t: RouteTable<Handler> = RouteTable::new();
    assert_eq!(config(&Scope::new(""), &mut t), Ok(()));
    assert_eq!(t.len(), 2);
    assert_eq!(t.method_at(0), Method::Get);
    assert_eq!(*t.handler_at(0), Handler::AppApp);
    assert_eq!(t.method_at(1), Method::Head);
    assert_eq!(*t.handler_at(1), Handler::MethodNotAllowed);
    assert_eq!(config(&Scope::new(""), &mut t), Err(RouteError::Duplicate));
    assert_eq!(t.len(), 2);
    assert_eq!(scoped_config(&Scope::new("/api"), &mut t), Ok(()));
    assert!(matches!(t.find(Method::Get, "/api/testtest"), Lookup::Found { index: 2, .. }));
}

#[test]
fn config_stops_at_the_registration_that_is_a_duplicate() {
    let mut t: RouteTable<Handler> = RouteTable::new();
    t.register(Method::Head, "/testtest", Handler::Hello).unwrap();
    assert_eq!(scoped_config(&Scope::new(""), &mut t), Err(RouteError::Duplicate));
    assert_eq!(t.len(), 2);
    assert_eq!(*t.handler_at(1), Handler::TestTest);
}

#[test]
fn a_known_path_with_another_method_is_405() {
    let app = App::new();
    assert_eq!(get(&app, "/echo"), text(405, "method not allowed"));
    for (method, target) in [
        (Method::Post, "/"),
        (Method::Delete, "/show/1"),
        (Method::Put, "/json_info"),
        (Method::Get, "/json_info"),
        (Method::Post, "/app/"),
        (Method::Patch, "/mutable_state"),
    ] {
        let resp = serve(&app, &mut AppStateWithCounter::new(), &request(method, target, b""));
        assert_eq!(resp, text(405, "method not allowed"), "{:?} {}", method, target);
    }
}

#[test]
fn an_unknown_path_gets_the_default() {
    let app = App::new();
    assert_eq!(get(&app, "/nowhere"), text(404, "not found"));
    assert_eq!(get(&app, "/show/1/2"), text(404, "not found"));
    assert_eq!(get(&app, ""), text(404, "not found"));
    for method in [Method::Post, Method::Head, Method::Put, Method::Delete, Method::Patch, Method::Options] {
        let resp = serve(&app, &mut AppStateWithCounter::new(), &request(method, "/nowhere", b""));
        assert_eq!(resp, text(405, "method not allowed"), "{:?}", method);
    }
}

#[test]
fn default_policies_differ_on_unknown_paths_only() {
    for method in [Method::Get, Method::Post, Method::Delete] {
        assert_eq!(default_response(DefaultPolicy::Conventional, method, true), text(405, "method not allowed"));
        assert_eq!(default_response(DefaultPolicy::RejectNonGet, method, true), text(405, "method not allowed"));
        assert_eq!(default_response(DefaultPolicy::Conventional, method, false), text(404, "not found"));
    }
    assert_eq!(default_response(DefaultPolicy::RejectNonGet, Method::Get, false), text(404, "not found"));
    assert_eq!(default_response(DefaultPolicy::RejectNonGet, Method::Post, false), text(405, "method not allowed"));
}

#[test]
fn the_query_string_is_no_part_of_the_path() {
    let app = App::new();
    let req = request(Method::Get, "/show/5?verbose=1&x=y", b"");
    assert_eq!(req.path(), "/show/5");
    assert_eq!(req.method(), Method::Get);
    assert_eq!(req.query().get("verbose").map(String::as_str), Some("1"));
    assert_eq!(req.query().len(), 2);
    assert_eq!(req.headers().len(), 0);
    assert_eq!(serve(&app, &mut AppStateWithCounter::new(), &req), text(200, "show_id: 5"));
    let req = request(Method::Get, "/a?b?c", b"");
    assert_eq!(req.path(), "/a");
    assert_eq!(req.query().name_at(0), "b?c");
}

#[test]
fn body_within_enforces_the_limit() {
    let req = request(Method::Post, "/echo", b"12345");
    assert_eq!(req.body(), &b"12345".to_vec());
    assert_eq!(req.body_within(5), Ok(&b"12345".to_vec()));
    assert_eq!(req.body_within(4), Err(ExtractError::PayloadTooLarge));
    assert_eq!(req.body_within(0), Err(ExtractError::PayloadTooLarge));
    assert_eq!(request(Method::Post, "/echo", b"").body_within(0), Ok(&Vec::new()));
}

#[test]
fn parameters_are_parsed_on_demand() {
    let p = params(&[("name", "alice"), ("id", "42"), ("id", "x")]);
    assert_eq!(param_u32(&p, "id"), Ok(42));
    assert_eq!(param_u32(&p, "name"), Err(ExtractError::BadRequest));
    assert_eq!(param_u32(&p, "missing"), Err(ExtractError::BadRequest));
    assert_eq!(param_u32_at(&p, 1), Ok(42));
    assert_eq!(param_u32_at(&p, 2), Err(ExtractError::BadRequest));
    assert_eq!(param_u32_at(&p, 3), Err(ExtractError::BadRequest));
    assert_eq!(param_at(&p, 0).map(String::as_str), Ok("alice"));
    assert_eq!(param_at(&p, 3), Err(ExtractError::BadRequest));
}

#[test]
fn a_full_counter_answers_500_and_stays() {
    let mut counter = AppStateWithCounter::with_count(i32::MAX - 1);
    assert!(counter.has_room());
    assert_eq!(count_reply(&mut counter), text(200, "Request number: 2147483647"));
    assert!(!counter.has_room());
    assert_eq!(count_reply(&mut counter), html(500, "internal error"));
    assert_eq!(counter.count(), i32::MAX);
    let app = App::new();
    let resp = serve(&app, &mut counter, &request(Method::Get, "/mutable_state", b""));
    assert_eq!(resp, html(500, "internal error"));
}

#[test]
fn a_counter_below_zero_is_rendered_with_its_sign() {
    let mut counter = AppStateWithCounter::with_count(-3);
    assert_eq!(mutable_state(&mut counter), "Request number: -2");
    assert_eq!(count_reply(&mut counter), text(200, "Request number: -1"));
    assert_eq!(count_reply(&mut counter), text(200, "Request number: 0"));
}

#[test]
fn json_failures_are_reported_as_they_are_unless_intercepted() {
    let plain = JsonConfig::new(8);
    assert_eq!(plain, JsonConfig { limit: 8, rejection: None });
    assert_eq!(plain.failure(), text(400, "bad request"));
    assert_eq!(info_reply(&plain, None), text(400, "bad request"));
    let conflict = plain.reject_with(409);
    assert_eq!(conflict, JsonConfig { limit: 8, rejection: Some(409) });
    assert_eq!(conflict.failure(), text(409, "bad request"));
    let info = Info { username: "eve".to_string() };
    assert_eq!(info_reply(&conflict, Some(info)), text(200, "Welcome eve!"));
    assert_eq!(*App::new().json_config(), JsonConfig { limit: 4096, rejection: Some(409) });
}

#[test]
fn responses_always_carry_a_content_type() {
    let h = Response::ok_text("x").headers();
    assert_eq!(h.len(), 1);
    assert_eq!(h.get("content-type").map(String::as_str), Some("text/plain; charset=utf-8"));
    let h = Response::html(500, String::new()).headers();
    assert_eq!(h.get("content-type").map(String::as_str), Some("text/html; charset=utf-8"));
    let h = Response::json(200, "{}".to_string()).headers();
    assert_eq!(h.get("content-type").map(String::as_str), Some("application/json"));
    assert_eq!(Response::empty(404).headers().len(), 1);
    assert_eq!(ContentType::OctetStream.header_value(), "application/octet-stream");
    assert_eq!(Response::bytes(200, vec![1]).body, Body::Bytes(vec![1]));
}

#[test]
fn run_handler_answers_for_each_handler() {
    let state = AppState { app_name: "N".to_string() };
    let req = request(Method::Get, "/", b"body");
    let small = JsonConfig::new(2);
    let context = Context::new(&req, Fields::new());
    let reply = |h: Handler| match run_handler(h, &context, &state, &small) {
        Action::Reply(r) => r,
        other => panic!("{:?}", other),
    };
    assert_eq!(reply(Handler::Hello), text(200, "Hello World!"));
    assert_eq!(reply(Handler::Echo).body, Body::Bytes(b"body".to_vec()));
    assert_eq!(reply(Handler::AppName), text(200, "Hello N!"));
    assert_eq!(reply(Handler::ShowId), text(400, "bad request"));
    assert_eq!(reply(Handler::Index3), text(400, "bad request"));
    assert_eq!(reply(Handler::PathInfoExt), text(400, "bad request"));
    assert_eq!(reply(Handler::JsonInfo), text(400, "bad request"));
    assert_eq!(reply(Handler::IndexRoot), text(200, "Hello app"));
    assert_eq!(
        reply(Handler::ReturnJson),
        Response {
            status: 200,
            content_type: ContentType::Json,
            body: Body::Text(r#"{"name":"user"}"#.to_string()),
        }
    );
    assert_eq!(reply(Handler::MethodNotAllowed), text(405, "method not allowed"));
    assert!(matches!(run_handler(Handler::MutableState, &context, &state, &small), Action::Count));
    let wide = JsonConfig::new(4);
    assert!(matches!(run_handler(Handler::JsonInfo, &context, &state, &wide), Action::DecodeInfo));
}

#[test]
fn a_server_starts_runs_and_stops() {
    assert_eq!(step(ServerState::Starting, ServerEvent::Bound), (ServerState::Running, Effect::Accept));
    assert_eq!(step(ServerState::Starting, ServerEvent::BindFailed), (ServerState::Stopped, Effect::Fail));
    assert_eq!(step(ServerState::Starting, ServerEvent::Shutdown), (ServerState::Starting, Effect::Ignore));
    assert_eq!(step(ServerState::Running, ServerEvent::Shutdown), (ServerState::Stopped, Effect::Drain));
    assert_eq!(step(ServerState::Running, ServerEvent::Bound), (ServerState::Running, Effect::Ignore));
    assert_eq!(step(ServerState::Running, ServerEvent::BindFailed), (ServerState::Running, Effect::Ignore));
    for event in [ServerEvent::Bound, ServerEvent::BindFailed, ServerEvent::Shutdown] {
        assert_eq!(step(ServerState::Stopped, event), (ServerState::Stopped, Effect::Ignore));
    }
}

#[test]
fn every_kind_of_reply_becomes_a_response() {
    let req = request(Method::Get, "/", b"");
    assert_eq!(Reply::Ready(empty(404)).respond_to(&req), empty(404));
    assert_eq!(Reply::Bytes(vec![1, 2]).respond_to(&req).body, Body::Bytes(vec![1, 2]));
    assert_eq!(Reply::Bytes(vec![1, 2]).respond_to(&req).status, 200);
    assert_eq!(Reply::Text("hi".to_string()).respond_to(&req), text(200, "hi"));
    assert_eq!(
        Reply::Json(MyObj { name: "n" }).respond_to(&req),
        Response {
            status: 200,
            content_type: ContentType::Json,
            body: Body::Text(r#"{"name":"n"}"#.to_string()),
        }
    );
    let failed = Reply::Failed(HandlerError::Declared(MyError::Timeout));
    assert_eq!(failed.respond_to(&req), html(504, "timeout"));
}

#[test]
fn handler_errors_map_to_status_and_message() {
    let cases = [
        (HandlerError::Declared(MyError::InternalError), 500, "internal error"),
        (HandlerError::Declared(MyError::BadClientData), 400, "bad request"),
        (HandlerError::Declared(MyError::Timeout), 504, "timeout"),
        (HandlerError::Named(MyErrorStruct { name: "test" }), 500, "my error: test"),
        (HandlerError::Logged(MyErrorLog::new("test error")), 500, "my error: test error"),
        (HandlerError::Extract(ExtractError::BadRequest), 400, "bad request"),
        (HandlerError::Extract(ExtractError::PayloadTooLarge), 413, "payload too large"),
    ];
    for (error, status, message) in cases {
        assert_eq!(error.status_code(), status);
        assert_eq!(error.message(), message);
        let response = error.error_response();
        assert_eq!(response.status, status);
        assert_eq!(response.body, Body::Text(message.to_string()));
        let declared = matches!(error, HandlerError::Declared(_));
        let expected = if declared { ContentType::Html } else { ContentType::PlainText };
        assert_eq!(response.content_type, expected);
    }
}

#[test]
fn a_context_exposes_parameters_query_and_body() {
    let req = request(Method::Post, "/show/9?a=b", b"xyz");
    let context = Context::new(&req, params(&[("id", "9")]));
    assert_eq!(context.params().get("id").map(String::as_str), Some("9"));
    assert_eq!(context.query().get("a").map(String::as_str), Some("b"));
    assert_eq!(context.request().path(), "/show/9");
    assert_eq!(context.body_within(3), Ok(&b"xyz".to_vec()));
    assert_eq!(context.body_within(2), Err(ExtractError::PayloadTooLarge));
}

#[test]
fn a_method_that_is_not_known_gets_the_default() {
    let app = App::new();
    assert_eq!(app.plan_unknown_method("/echo"), text(405, "method not allowed"));
    assert_eq!(app.plan_unknown_method("/nowhere"), text(405, "method not allowed"));
    let mut routes: RouteTable<Handler> = RouteTable::new();
    routes.register(Method::Get, "/here/{x}", Handler::Hello).unwrap();
    assert!(routes.knows_path("/here/1"));
    assert!(!routes.knows_path("/here/"));
    assert!(!routes.knows_path("/there"));
    let state = AppState { app_name: String::new() };
    let app = App::with(routes, DefaultPolicy::Conventional, state, JsonConfig::new(JSON_LIMIT));
    assert_eq!(app.plan_unknown_method("/here/1"), text(405, "method not allowed"));
    assert_eq!(app.plan_unknown_method("/there"), text(404, "not found"));
}

#[test]
fn every_refusal_carries_a_message() {
    let app = App::new();
    let mut counter = AppStateWithCounter::with_count(i32::MAX);
    let long = vec![b'x'; 5000];
    let cases = [
        request(Method::Get, "/nowhere", b""),
        request(Method::Post, "/nowhere", b""),
        request(Method::Get, "/echo", b""),
        request(Method::Head, "/appapp", b""),
        request(Method::Post, "/json_info", b"{"),
        request(Method::Post, "/json_info", &long),
        request(Method::Get, "/show/x", b""),
        request(Method::Get, "/400", b""),
        request(Method::Get, "/408", b""),
        request(Method::Get, "/500", b""),
        request(Method::Get, "/index_error", b""),
        request(Method::Get, "/mutable_state", b""),
    ];
    for req in cases.iter() {
        let resp = serve(&app, &mut counter, req);
        assert!(resp.is_client_error() || resp.is_server_error(), "{:?}", req);
        match resp.body {
            Body::Text(message) => assert!(!message.is_empty(), "{:?}", req),
            other => panic!("{:?}: {:?}", req, other),
        }
    }
}
