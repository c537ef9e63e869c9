//! The application: its route table, what it answers where no route serves a
//! request, and the decision taken for each request.
//!
//! Deciding and acting are kept apart. [`App::plan`] looks at a request and
//! says what is to be done; most requests are answered at once. Two are not:
//! one that counts needs the shared counter, which the caller holds under a
//! lock, and one that carries JSON needs the body decoded. The caller does
//! that work and comes back with its result, to [`count_reply`] or to
//! [`info_reply`].

use vstd::prelude::*;
use vstd::string::StringExecFns;
use crate::error::{ExtractError, HandlerError, MyError};
use crate::handlers::{
    app_name, app_name_text, binding, config, echo, hello, index, index2, index3, index3_text,
    index_error, index_error_400, index_error_408, index_error_500, index_root, json_info,
    manual_hello,
    mutable_state, path_info_ext, path_info_text, request_number_text, return_json,
    scoped_config, show_id, show_id_text, AppState, AppStateWithCounter, Handler,
};
use crate::json::{json_failure, json_reply, name_object, welcome, Info, JsonConfig};
use crate::method::Method;
use crate::pattern::{captures, lemma_pattern_of_injective, path_segments, pattern_of};
use crate::reply::Reply;
use crate::request::{number_at, text_at, Context, Request, RequestView};
use crate::response::{
    bytes_response, html_response, text_response, Response, ResponseView,
    CONFLICT, INTERNAL_SERVER_ERROR, METHOD_NOT_ALLOWED, NOT_FOUND, OK,
};
use crate::router::{
    first_match, has_route, path_known, scoped, Lookup, RouteTable, RouteView, Scope,
};

verus! {

/// What is answered where no route serves a request.
#[derive(Clone, Copy, Debug, PartialEq, Eq, Structural)]
pub enum DefaultPolicy {
    /// 405 where the path is served under another method, 404 elsewhere.
    Conventional,
    /// As `Conventional`, and 405 too for every method but `GET` on a path
    /// that no route accepts.
    RejectNonGet,
}

/// The status that a policy gives to a request that no route serves.
/// `known` tells whether some route accepts the path under another method.
pub open spec fn default_status(policy: DefaultPolicy, method: Method, known: bool) -> u16 {
    if known {
        METHOD_NOT_ALLOWED
    } else {
        match policy {
            DefaultPolicy::Conventional => NOT_FOUND,
            DefaultPolicy::RejectNonGet => if method == Method::Get {
                NOT_FOUND
            } else {
                METHOD_NOT_ALLOWED
            },
        }
    }
}

/// The message that goes with the status of a default answer.
pub open spec fn default_message(status: u16) -> Seq<char> {
    if status == METHOD_NOT_ALLOWED {
        "method not allowed"@
    } else {
        "not found"@
    }
}

/// The answer to a request that no route serves: the status that the policy
/// gives, with its message as plain text.
pub open spec fn default_reply(policy: DefaultPolicy, method: Method, known: bool) -> ResponseView {
    let status = default_status(policy, method, known);
    text_response(status, default_message(status))
}

/// The status that a policy gives to a request under a method that is none
/// of [`Method`]: that of any method but `GET`, since no route serves it.
pub open spec fn unknown_method_status(policy: DefaultPolicy, known: bool) -> u16 {
    if known || policy == DefaultPolicy::RejectNonGet {
        METHOD_NOT_ALLOWED
    } else {
        NOT_FOUND
    }
}

/// The refusal of a method on a path.
fn method_not_allowed() -> (r: Response)
    ensures
        r@ == text_response(METHOD_NOT_ALLOWED, "method not allowed"@),
{
    Response::text(METHOD_NOT_ALLOWED, String::from_str("method not allowed"))
}

/// The refusal of a path.
fn not_found() -> (r: Response)
    ensures
        r@ == text_response(NOT_FOUND, "not found"@),
{
    Response::text(NOT_FOUND, String::from_str("not found"))
}

/// Answers a request that no route serves.
pub fn default_response(policy: DefaultPolicy, method: Method, known: bool) -> (r: Response)
    ensures
        r@ == default_reply(policy, method, known),
{
    if known {
        method_not_allowed()
    } else {
        match policy {
            DefaultPolicy::Conventional => not_found(),
            DefaultPolicy::RejectNonGet => match method {
                Method::Get => not_found(),
                _ => method_not_allowed(),
            },
        }
    }
}

/// What is to be done for a request.
#[derive(Debug)]
pub enum Action {
    /// Send this response.
    Reply(Response),
    /// Take the shared counter and send what [`count_reply`] makes of it.
    Count,
    /// Decode the body as [`Info`] and send what [`info_reply`] makes of
    /// the outcome.
    DecodeInfo,
}

/// The mathematical value of an [`Action`].
pub ghost enum ActionView {
    Reply(ResponseView),
    Count,
    DecodeInfo,
}

impl View for Action {
    type V = ActionView;

    open spec fn view(&self) -> ActionView {
        match self {
            Action::Reply(response) => ActionView::Reply(response@),
            Action::Count => ActionView::Count,
            Action::DecodeInfo => ActionView::DecodeInfo,
        }
    }
}

/// The response of a handler that yields text or an extraction error.
pub open spec fn text_or_bad_request(text: Option<Seq<char>>) -> ResponseView {
    match text {
        Some(t) => text_response(OK, t),
        None => text_response(
            ExtractError::BadRequest.status_code_spec(),
            ExtractError::BadRequest.message_spec(),
        ),
    }
}

/// What each handler does with a request whose path gave it `params`, in an
/// application named `name` that admits JSON bodies as `json` says.
pub open spec fn handler_action(
    handler: Handler,
    params: Seq<(Seq<char>, Seq<char>)>,
    request: RequestView,
    name: Seq<char>,
    json: JsonConfig,
) -> ActionView {
    match handler {
        Handler::Hello => ActionView::Reply(text_response(OK, "Hello World!"@)),
        Handler::Echo => ActionView::Reply(bytes_response(OK, request.body)),
        Handler::ManualHello => ActionView::Reply(text_response(OK, "Hey there!"@)),
        Handler::Index => ActionView::Reply(text_response(OK, "Hello app/index.html"@)),
        Handler::Index2 => ActionView::Reply(text_response(OK, "Hello app/index"@)),
        Handler::IndexRoot => ActionView::Reply(text_response(OK, "Hello app"@)),
        Handler::ShowId => ActionView::Reply(
            text_or_bad_request(
                match number_at(params, 0) {
                    Some(_) => Some(show_id_text(params[0].1)),
                    None => None,
                },
            ),
        ),
        Handler::Index3 => ActionView::Reply(text_or_bad_request(index3_text(params))),
        Handler::PathInfoExt => ActionView::Reply(
            text_or_bad_request(
                match (text_at(params, 0), number_at(params, 1)) {
                    (Some(username), Some(id)) => Some(path_info_text(username, id)),
                    _ => None,
                },
            ),
        ),
        Handler::AppName => ActionView::Reply(text_response(OK, app_name_text(name))),
        Handler::MutableState => ActionView::Count,
        Handler::JsonInfo => if request.body.len() > json.limit {
            ActionView::Reply(json_failure(json))
        } else {
            ActionView::DecodeInfo
        },
        Handler::ReturnJson => ActionView::Reply(json_reply(Some(name_object("user"@)))),
        Handler::IndexError => ActionView::Reply(
            text_response(INTERNAL_SERVER_ERROR, crate::error::named_message("test"@)),
        ),
        Handler::IndexError400 => ActionView::Reply(
            html_response(
                MyError::BadClientData.status_code_spec(),
                MyError::BadClientData.message_spec(),
            ),
        ),
        Handler::IndexError408 => ActionView::Reply(
            html_response(MyError::Timeout.status_code_spec(), MyError::Timeout.message_spec()),
        ),
        Handler::IndexError500 => ActionView::Reply(
            html_response(
                MyError::InternalError.status_code_spec(),
                MyError::InternalError.message_spec(),
            ),
        ),
        Handler::Root => ActionView::Reply(text_response(OK, "/root"@)),
        Handler::AppApp => ActionView::Reply(text_response(OK, "appapp"@)),
        Handler::TestTest => ActionView::Reply(text_response(OK, "testtest"@)),
        Handler::MethodNotAllowed => ActionView::Reply(
            text_response(METHOD_NOT_ALLOWED, "method not allowed"@),
        ),
    }
}

/// What an application with these routes, this policy, this name and this
/// admission of JSON bodies does with `request`: what the first route that
/// serves the request makes its handler do, and where no route serves it,
/// the answer of the policy.
pub open spec fn plan_action(
    routes: Seq<RouteView<Handler>>,
    policy: DefaultPolicy,
    name: Seq<char>,
    json: JsonConfig,
    request: RequestView,
) -> ActionView {
    let pieces = path_segments(request.path);
    match first_match(routes, request.method, pieces) {
        Some(i) => handler_action(
            routes[i].handler,
            captures(routes[i].pattern, pieces),
            request,
            name,
            json,
        ),
        None => ActionView::Reply(
            default_reply(policy, request.method, path_known(routes, pieces)),
        ),
    }
}

/// Runs `handler` in `context`.
pub fn run_handler(handler: Handler, context: &Context, state: &AppState, json: &JsonConfig) -> (action:
    Action)
    ensures
        action@ == handler_action(
            handler,
            context.params_spec(),
            context.request_spec(),
            state.app_name@,
            *json,
        ),
{
    let request = context.request();
    let params = context.params();
    let reply = match handler {
        Handler::Hello => Reply::Ready(hello()),
        Handler::Echo => Reply::Ready(echo(request.body().clone())),
        Handler::ManualHello => Reply::Ready(manual_hello()),
        Handler::Index => Reply::Text(String::from_str(index())),
        Handler::Index2 => Reply::Text(String::from_str(index2())),
        Handler::IndexRoot => Reply::Text(String::from_str(index_root())),
        Handler::ShowId => match show_id(params) {
            Ok(response) => Reply::Ready(response),
            Err(e) => Reply::Failed(HandlerError::Extract(e)),
        },
        Handler::Index3 => match index3(params) {
            Ok(text) => Reply::Text(text),
            Err(e) => Reply::Failed(HandlerError::Extract(e)),
        },
        Handler::PathInfoExt => match path_info_ext(params) {
            Ok(text) => Reply::Text(text),
            Err(e) => Reply::Failed(HandlerError::Extract(e)),
        },
        Handler::AppName => Reply::Text(app_name(state)),
        Handler::MutableState => {
            return Action::Count;
        },
        Handler::JsonInfo => match context.body_within(json.limit) {
            Ok(_) => {
                return Action::DecodeInfo;
            },
            Err(_) => Reply::Ready(json.failure()),
        },
        Handler::ReturnJson => Reply::Json(return_json()),
        Handler::IndexError => match index_error() {
            Ok(text) => Reply::Text(String::from_str(text)),
            Err(e) => Reply::Failed(HandlerError::Named(e)),
        },
        Handler::IndexError400 => match index_error_400() {
            Ok(text) => Reply::Text(String::from_str(text)),
            Err(e) => Reply::Failed(HandlerError::Declared(e)),
        },
        Handler::IndexError408 => match index_error_408() {
            Ok(text) => Reply::Text(String::from_str(text)),
            Err(e) => Reply::Failed(HandlerError::Declared(e)),
        },
        Handler::IndexError500 => match index_error_500() {
            Ok(text) => Reply::Text(String::from_str(text)),
            Err(e) => Reply::Failed(HandlerError::Declared(e)),
        },
        Handler::Root => Reply::Text(String::from_str("/root")),
        Handler::AppApp => Reply::Text(String::from_str("appapp")),
        Handler::TestTest => Reply::Text(String::from_str("testtest")),
        Handler::MethodNotAllowed => Reply::Ready(method_not_allowed()),
    };
    Action::Reply(reply.respond_to(request))
}

/// The response to a request that counts: the new count, or, where the
/// counter has no room left, the response of an internal error, with the
/// counter as it was.
pub open spec fn count_outcome(before: int) -> (int, ResponseView) {
    if before < i32::MAX {
        (before + 1, text_response(OK, request_number_text(before + 1)))
    } else {
        (
            before,
            html_response(
                MyError::InternalError.status_code_spec(),
                MyError::InternalError.message_spec(),
            ),
        )
    }
}

/// Answers a request that counts. The caller holds the counter exclusively
/// for the length of the call.
pub fn count_reply(counter: &mut AppStateWithCounter) -> (r: Response)
    ensures
        (final(counter)@, r@) == count_outcome(old(counter)@),
{
    if counter.has_room() {
        Response::text(OK, mutable_state(counter))
    } else {
        MyError::InternalError.error_response()
    }
}

/// The response to a request whose body was to be decoded: a greeting of
/// the user named in it, or, where it could not be decoded, what `json`
/// sends for a bad request.
pub open spec fn info_outcome(json: JsonConfig, username: Option<Seq<char>>) -> ResponseView {
    match username {
        Some(name) => text_response(OK, welcome(name)),
        None => json_failure(json),
    }
}

/// Answers a request whose body was to be decoded, given what decoding made
/// of it: `None` where the body does not have the shape of [`Info`].
pub fn info_reply(json: &JsonConfig, decoded: Option<Info>) -> (r: Response)
    ensures
        r@ == info_outcome(
            *json,
            match decoded {
                Some(info) => Some(info.username@),
                None => None,
            },
        ),
{
    match decoded {
        Some(info) => Response::text(OK, json_info(&info)),
        None => json.failure(),
    }
}

/// The longest JSON body, in bytes, that the application decodes.
pub const JSON_LIMIT: usize = 4096;

/// The routes of the application, in the order of their registration.
pub open spec fn app_routes() -> Seq<RouteView<Handler>> {
    seq![
        binding(Method::Get, "/appapp"@, Handler::AppApp),
        binding(Method::Head, "/appapp"@, Handler::MethodNotAllowed),
        binding(Method::Get, "/api/testtest"@, Handler::TestTest),
        binding(Method::Head, "/api/testtest"@, Handler::MethodNotAllowed),
        binding(Method::Get, "/root"@, Handler::Root),
        binding(Method::Get, "/app_name"@, Handler::AppName),
        binding(Method::Get, "/mutable_state"@, Handler::MutableState),
        binding(Method::Post, "/mutable_state"@, Handler::MutableState),
        binding(Method::Post, "/json_info"@, Handler::JsonInfo),
        binding(Method::Get, "/return_json"@, Handler::ReturnJson),
        binding(Method::Get, "/index_error"@, Handler::IndexError),
        binding(Method::Get, "/400"@, Handler::IndexError400),
        binding(Method::Get, "/408"@, Handler::IndexError408),
        binding(Method::Get, "/500"@, Handler::IndexError500),
        binding(Method::Get, "/app/index.html"@, Handler::Index),
        binding(Method::Get, "/app/"@, Handler::Index2),
        binding(Method::Get, "/app"@, Handler::IndexRoot),
        binding(Method::Get, "/"@, Handler::Hello),
        binding(Method::Post, "/echo"@, Handler::Echo),
        binding(Method::Get, "/test/{v1}/{v2}/"@, Handler::Index3),
        binding(Method::Get, "/show/{id}"@, Handler::ShowId),
        binding(Method::Get, "/{username}/{id}/index.html"@, Handler::PathInfoExt),
        binding(Method::Get, "/hey"@, Handler::ManualHello),
    ]
}

/// Binds a route under `scope` in a table that has no route of this method
/// and pattern yet.
fn bind(scope: &Scope, table: &mut RouteTable<Handler>, method: Method, pattern: &str, handler: Handler)
    requires
        old(table).wf(),
        !has_route(old(table)@, method, pattern_of(scoped(scope@, pattern@))),
    ensures
        final(table).wf(),
        final(table)@ == old(table)@.push(binding(method, scoped(scope@, pattern@), handler)),
{
    match scope.register(table, method, pattern, handler) {
        Ok(()) => {},
        Err(_) => {},
    }
}

/// An application: routes, a default policy, shared state and the admission
/// of JSON bodies.
pub struct App {
    routes: RouteTable<Handler>,
    policy: DefaultPolicy,
    state: AppState,
    json: JsonConfig,
}

impl App {
    /// The routes, in the order of their registration.
    pub closed spec fn routes(&self) -> Seq<RouteView<Handler>> {
        self.routes@
    }

    /// The default policy.
    pub closed spec fn policy(&self) -> DefaultPolicy {
        self.policy
    }

    /// The application's name.
    pub closed spec fn name(&self) -> Seq<char> {
        self.state.app_name@
    }

    /// How JSON bodies are admitted.
    pub closed spec fn json(&self) -> JsonConfig {
        self.json
    }

    /// The table's invariant holds of the routes.
    pub closed spec fn wf(&self) -> bool {
        self.routes.wf()
    }

    /// An application with these routes, this policy, this state and this
    /// admission of JSON bodies.
    pub fn with(routes: RouteTable<Handler>, policy: DefaultPolicy, state: AppState, json: JsonConfig) -> (app:
        App)
        requires
            routes.wf(),
        ensures
            app.wf(),
            app.routes() == routes@,
            app.policy() == policy,
            app.name() == state.app_name@,
            app.json() == json,
    {
        App { routes, policy, state, json }
    }

    /// How JSON bodies are admitted.
    pub fn json_config(&self) -> (json: &JsonConfig)
        ensures
            *json == self.json(),
    {
        &self.json
    }

    /// The application with the routes of [`app_routes`], which answers 405
    /// to every method but `GET` where no route serves a request, is named
    /// `Actix Web`, decodes JSON bodies of up to [`JSON_LIMIT`] bytes and
    /// answers 409 to the others.
    pub fn new() -> (app: App)
        ensures
            app.wf(),
            app.routes() == app_routes(),
            app.policy() == DefaultPolicy::RejectNonGet,
            app.name() == "Actix Web"@,
            app.json() == (JsonConfig { limit: JSON_LIMIT, rejection: Some(CONFLICT) }),
    {
        let root = Scope::new("");
        let api = root.nest("/api");
        let app = root.nest("/app");
        let mut table: RouteTable<Handler> = RouteTable::new();
        proof {
            reveal_strlit("");
            reveal_strlit("/api");
            reveal_strlit("/app");
            reveal_strlit("/appapp");
            reveal_strlit("/testtest");
            reveal_strlit("/api/testtest");
            reveal_strlit("/root");
            reveal_strlit("/app_name");
            reveal_strlit("/mutable_state");
            reveal_strlit("/json_info");
            reveal_strlit("/return_json");
            reveal_strlit("/index_error");
            reveal_strlit("/400");
            reveal_strlit("/408");
            reveal_strlit("/500");
            reveal_strlit("index.html");
            reveal_strlit("/app/index.html");
            reveal_strlit("/app/");
            reveal_strlit("/");
            reveal_strlit("/echo");
            reveal_strlit("/test/{v1}/{v2}/");
            reveal_strlit("/show/{id}");
            reveal_strlit("/{username}/{id}/index.html");
            reveal_strlit("/hey");
            assert(root@ =~= ""@);
            assert(api@ =~= "/api"@);
            assert(app@ =~= "/app"@);
            assert(scoped(root@, "/appapp"@) =~= "/appapp"@);
            assert(scoped(api@, "/testtest"@) =~= "/api/testtest"@);
            assert(scoped(root@, "/root"@) =~= "/root"@);
            assert(scoped(root@, "/app_name"@) =~= "/app_name"@);
            assert(scoped(root@, "/mutable_state"@) =~= "/mutable_state"@);
            assert(scoped(root@, "/json_info"@) =~= "/json_info"@);
            assert(scoped(root@, "/return_json"@) =~= "/return_json"@);
            assert(scoped(root@, "/index_error"@) =~= "/index_error"@);
            assert(scoped(root@, "/400"@) =~= "/400"@);
            assert(scoped(root@, "/408"@) =~= "/408"@);
            assert(scoped(root@, "/500"@) =~= "/500"@);
            assert(scoped(app@, "index.html"@) =~= "/app/index.html"@);
            assert(scoped(app@, "/"@) =~= "/app/"@);
            assert(scoped(app@, ""@) =~= "/app"@);
            assert(scoped(root@, "/"@) =~= "/"@);
            assert(scoped(root@, "/echo"@) =~= "/echo"@);
            assert(scoped(root@, "/test/{v1}/{v2}/"@) =~= "/test/{v1}/{v2}/"@);
            assert(scoped(root@, "/show/{id}"@) =~= "/show/{id}"@);
            assert(scoped(root@, "/{username}/{id}/index.html"@) =~= "/{username}/{id}/index.html"@);
            assert(scoped(root@, "/hey"@) =~= "/hey"@);
            assert("/500"@[1] != "/400"@[1] && "/500"@[1] != "/408"@[1]);
            assert forall|a: Seq<char>, b: Seq<char>|
                #![trigger pattern_of(a), pattern_of(b)]
                pattern_of(a) == pattern_of(b) implies a == b by {
                lemma_pattern_of_injective(a, b);
            }
        }
        match config(&root, &mut table) {
            Ok(()) => {},
            Err(_) => {},
        }
        match scoped_config(&api, &mut table) {
            Ok(()) => {},
            Err(_) => {},
        }
        bind(&root, &mut table, Method::Get, "/root", Handler::Root);
        bind(&root, &mut table, Method::Get, "/app_name", Handler::AppName);
        bind(&root, &mut table, Method::Get, "/mutable_state", Handler::MutableState);
        bind(&root, &mut table, Method::Post, "/mutable_state", Handler::MutableState);
        bind(&root, &mut table, Method::Post, "/json_info", Handler::JsonInfo);
        bind(&root, &mut table, Method::Get, "/return_json", Handler::ReturnJson);
        bind(&root, &mut table, Method::Get, "/index_error", Handler::IndexError);
        bind(&root, &mut table, Method::Get, "/400", Handler::IndexError400);
        bind(&root, &mut table, Method::Get, "/408", Handler::IndexError408);
        bind(&root, &mut table, Method::Get, "/500", Handler::IndexError500);
        bind(&app, &mut table, Method::Get, "index.html", Handler::Index);
        bind(&app, &mut table, Method::Get, "/", Handler::Index2);
        bind(&app, &mut table, Method::Get, "", Handler::IndexRoot);
        bind(&root, &mut table, Method::Get, "/", Handler::Hello);
        bind(&root, &mut table, Method::Post, "/echo", Handler::Echo);
        bind(&root, &mut table, Method::Get, "/test/{v1}/{v2}/", Handler::Index3);
        bind(&root, &mut table, Method::Get, "/show/{id}", Handler::ShowId);
        bind(&root, &mut table, Method::Get, "/{username}/{id}/index.html", Handler::PathInfoExt);
        bind(&root, &mut table, Method::Get, "/hey", Handler::ManualHello);
        assert(table@ =~= app_routes());
        App::with(
            table,
            DefaultPolicy::RejectNonGet,
            AppState { app_name: String::from_str("Actix Web") },
            JsonConfig::new(JSON_LIMIT).reject_with(CONFLICT),
        )
    }

    /// The number of routes.
    pub fn route_count(&self) -> (n: usize)
        ensures
            n == self.routes().len(),
    {
        self.routes.len()
    }

    /// Answers a request on `path` under a method that is none of
    /// [`Method`]. No route serves it, so the policy answers, as it does
    /// for any method but `GET`.
    pub fn plan_unknown_method(&self, path: &str) -> (r: Response)
        ensures
            r@ == text_response(
                unknown_method_status(
                    self.policy(),
                    path_known(self.routes(), path_segments(path@)),
                ),
                default_message(
                    unknown_method_status(
                        self.policy(),
                        path_known(self.routes(), path_segments(path@)),
                    ),
                ),
            ),
    {
        if self.routes.knows_path(path) {
            method_not_allowed()
        } else {
            match self.policy {
                DefaultPolicy::Conventional => not_found(),
                DefaultPolicy::RejectNonGet => method_not_allowed(),
            }
        }
    }

    /// Decides what is to be done for `request`.
    pub fn plan(&self, request: &Request) -> (action: Action)
        ensures
            action@ == plan_action(
                self.routes(),
                self.policy(),
                self.name(),
                self.json(),
                request@,
            ),
    {
        match self.routes.find(request.method(), request.path()) {
            Lookup::Found { index, params } => {
                proof {
                    crate::router::lemma_first_match_wins(
                        self.routes@,
                        request@.method,
                        path_segments(request@.path),
                    );
                }
                let handler = *self.routes.handler_at(index);
                let context = Context::new(request, params);
                run_handler(handler, &context, &self.state, &self.json)
            },
            Lookup::NoMatch { path_known } => Action::Reply(
                default_response(self.policy, request.method(), path_known),
            ),
        }
    }
}

} // verus!
