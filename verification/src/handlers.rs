//! The handlers of the application and the state that they share.

use vstd::prelude::*;
use vstd::string::StringExecFns;
use crate::error::{ExtractError, MyError, MyErrorLog, MyErrorStruct};
use crate::fields::{first_value, Fields};
use crate::json::{render_welcome, welcome, Info, MyObj};
use crate::method::Method;
use crate::pattern::pattern_of;
use crate::request::{number_at, param_at, param_u32_at, text_at};
use crate::response::{bytes_response, text_response, Response, OK};
use crate::router::{has_route, scoped, RouteError, RouteTable, RouteView, Scope};
use crate::text::{decimal, render_decimal, render_signed, signed_decimal};

verus! {

/// State that every handler may read.
#[derive(Debug)]
pub struct AppState {
    pub app_name: String,
}

/// State that handlers change: a count of the requests served. Whoever
/// shares it between concurrent requests hands it out under a lock, one
/// request at a time.
#[derive(Debug)]
pub struct AppStateWithCounter {
    counter: i32,
}

impl View for AppStateWithCounter {
    type V = int;

    closed spec fn view(&self) -> int {
        self.counter as int
    }
}

impl AppStateWithCounter {
    /// The state before any request: a count of zero.
    pub fn new() -> (state: AppStateWithCounter)
        ensures
            state@ == 0,
    {
        AppStateWithCounter { counter: 0 }
    }

    /// The state in which `count` requests have been counted already.
    pub fn with_count(count: i32) -> (state: AppStateWithCounter)
        ensures
            state@ == count,
    {
        AppStateWithCounter { counter: count }
    }

    /// The count so far.
    pub fn count(&self) -> (n: i32)
        ensures
            n == self@,
    {
        self.counter
    }

    /// Whether the count can still grow.
    pub fn has_room(&self) -> (r: bool)
        ensures
            r == (self@ < i32::MAX),
    {
        self.counter < i32::MAX
    }
}

/// The handlers that routes can be bound to.
#[derive(Clone, Copy, Debug, PartialEq, Eq, Structural)]
pub enum Handler {
    Hello,
    Echo,
    ManualHello,
    Index,
    Index2,
    IndexRoot,
    ShowId,
    Index3,
    PathInfoExt,
    AppName,
    MutableState,
    JsonInfo,
    ReturnJson,
    IndexError,
    IndexError400,
    IndexError408,
    IndexError500,
    Root,
    AppApp,
    TestTest,
    MethodNotAllowed,
}

/// `GET /`: a greeting.
pub fn hello() -> (r: Response)
    ensures
        r@ == text_response(OK, "Hello World!"@),
{
    Response::ok_text("Hello World!")
}

/// `POST /echo`: the request body, byte for byte.
pub fn echo(req_body: Vec<u8>) -> (r: Response)
    ensures
        r@ == bytes_response(OK, req_body@),
{
    Response::bytes(OK, req_body)
}

/// `GET /hey`: another greeting.
pub fn manual_hello() -> (r: Response)
    ensures
        r@ == text_response(OK, "Hey there!"@),
{
    Response::ok_text("Hey there!")
}

/// `GET /app/index.html`.
pub fn index() -> (text: &'static str)
    ensures
        text@ == "Hello app/index.html"@,
{
    "Hello app/index.html"
}

/// `GET /app/`.
pub fn index2() -> (text: &'static str)
    ensures
        text@ == "Hello app/index"@,
{
    "Hello app/index"
}

/// `GET /app`.
pub fn index_root() -> (text: &'static str)
    ensures
        text@ == "Hello app"@,
{
    "Hello app"
}

/// The body of `GET /show/{id}` for the number written as `id`.
pub open spec fn show_id_text(id: Seq<char>) -> Seq<char> {
    "show_id: "@ + id
}

/// `GET /show/{id}`: checks that the first path parameter is a 32-bit
/// unsigned number and echoes it as it was written. Anything else is a bad
/// request.
pub fn show_id(path: &Fields) -> (r: Result<Response, ExtractError>)
    ensures
        match number_at(path@, 0) {
            Some(_) => r matches Ok(response) && response@ == text_response(
                OK,
                show_id_text(path@[0].1),
            ),
            None => r == Err::<Response, ExtractError>(ExtractError::BadRequest),
        },
{
    match param_u32_at(path, 0) {
        Ok(_) => {
            let text = String::from_str("show_id: ").concat(path.value_at(0).as_str());
            Ok(Response::text(OK, text))
        },
        Err(e) => Err(e),
    }
}

/// The text of `GET /test/{v1}/{v2}/` for the parameters `params`: the
/// parameter named `v1`, the one named `v2` (empty if there is none), then
/// the first two parameters by position.
pub open spec fn index3_text(params: Seq<(Seq<char>, Seq<char>)>) -> Option<Seq<char>> {
    match (first_value(params, "v1"@), text_at(params, 0), text_at(params, 1)) {
        (Some(v1), Some(v3), Some(v4)) => {
            let v2 = match first_value(params, "v2"@) {
                Some(v) => v,
                None => Seq::<char>::empty(),
            };
            Some("Test values "@ + v1 + " "@ + v2 + " "@ + v3 + " "@ + v4)
        },
        _ => None,
    }
}

/// `GET /test/{v1}/{v2}/`: reads both parameters by name and once more by
/// position, and lists the four values. A request without a parameter
/// named `v1`, or with fewer than two parameters, is a bad request.
pub fn index3(params: &Fields) -> (r: Result<String, ExtractError>)
    ensures
        match index3_text(params@) {
            Some(text) => r matches Ok(t) && t@ == text,
            None => r == Err::<String, ExtractError>(ExtractError::BadRequest),
        },
{
    let v1 = match params.get("v1") {
        Some(v) => v,
        None => {
            return Err(ExtractError::BadRequest);
        },
    };
    let v3 = match param_at(params, 0) {
        Ok(v) => v,
        Err(e) => {
            return Err(e);
        },
    };
    let v4 = match param_at(params, 1) {
        Ok(v) => v,
        Err(e) => {
            return Err(e);
        },
    };
    let mut text = String::from_str("Test values ").concat(v1.as_str()).concat(" ");
    match params.get("v2") {
        Some(v2) => {
            text.append(v2.as_str());
        },
        None => {
            assert(text@ + Seq::<char>::empty() =~= text@);
        },
    }
    let text = text.concat(" ").concat(v3.as_str()).concat(" ").concat(v4.as_str());
    Ok(text)
}

/// The text of `GET /{username}/{id}/index.html`.
pub open spec fn path_info_text(username: Seq<char>, id: u32) -> Seq<char> {
    "Welcome "@ + username + "! id: "@ + decimal(id as nat)
}

/// `GET /{username}/{id}/index.html`: the first parameter is a name, the
/// second a 32-bit unsigned number. Anything else is a bad request.
pub fn path_info_ext(info: &Fields) -> (r: Result<String, ExtractError>)
    ensures
        match (text_at(info@, 0), number_at(info@, 1)) {
            (Some(username), Some(id)) => r matches Ok(t) && t@ == path_info_text(username, id),
            _ => r == Err::<String, ExtractError>(ExtractError::BadRequest),
        },
{
    let username = match param_at(info, 0) {
        Ok(v) => v,
        Err(e) => {
            return Err(e);
        },
    };
    let id = match param_u32_at(info, 1) {
        Ok(v) => v,
        Err(e) => {
            return Err(e);
        },
    };
    let text = String::from_str("Welcome ").concat(username.as_str()).concat("! id: ").concat(
        render_decimal(id as u64).as_str(),
    );
    Ok(text)
}

/// The text of `GET /app_name`.
pub open spec fn app_name_text(name: Seq<char>) -> Seq<char> {
    "Hello "@ + name + "!"@
}

/// `GET /app_name`: greets the application by the name in its state.
pub fn app_name(data: &AppState) -> (text: String)
    ensures
        text@ == app_name_text(data.app_name@),
{
    String::from_str("Hello ").concat(data.app_name.as_str()).concat("!")
}

/// The text of `/mutable_state` for the count `n`.
pub open spec fn request_number_text(n: int) -> Seq<char> {
    "Request number: "@ + signed_decimal(n)
}

/// `/mutable_state`: counts this request and reports the new count. The
/// caller holds the state exclusively for the length of the call.
pub fn mutable_state(data: &mut AppStateWithCounter) -> (text: String)
    requires
        old(data)@ < i32::MAX,
    ensures
        final(data)@ == old(data)@ + 1,
        text@ == request_number_text(final(data)@),
{
    data.counter = data.counter + 1;
    String::from_str("Request number: ").concat(render_signed(data.counter).as_str())
}

/// `POST /json_info`: greets the user named in the decoded body.
pub fn json_info(info: &Info) -> (text: String)
    ensures
        text@ == welcome(info.username@),
{
    render_welcome(info.username.as_str())
}

/// `GET /return_json`: the object to send.
pub fn return_json() -> (obj: MyObj)
    ensures
        obj.name@ == "user"@,
{
    MyObj { name: "user" }
}

/// `GET /index_error`: always fails, with an error named `test`.
pub fn index_error() -> (r: Result<&'static str, MyErrorStruct>)
    ensures
        r matches Err(e) && e.name@ == "test"@,
{
    Err(MyErrorStruct { name: "test" })
}

/// `GET /400`: always fails, with bad client data.
pub fn index_error_400() -> (r: Result<&'static str, MyError>)
    ensures
        r == Err::<&'static str, MyError>(MyError::BadClientData),
{
    Err(MyError::BadClientData)
}

/// `GET /408`: always fails, with a timeout.
pub fn index_error_408() -> (r: Result<&'static str, MyError>)
    ensures
        r == Err::<&'static str, MyError>(MyError::Timeout),
{
    Err(MyError::Timeout)
}

/// `GET /500`: always fails, with an internal error.
pub fn index_error_500() -> (r: Result<&'static str, MyError>)
    ensures
        r == Err::<&'static str, MyError>(MyError::InternalError),
{
    Err(MyError::InternalError)
}

/// Always fails, with an error named `test error` whose message the caller
/// is to log before it reports the error.
pub fn index_err_log() -> (r: Result<&'static str, MyErrorLog>)
    ensures
        r matches Err(e) && e.name_spec() == "test error"@,
{
    Err(MyErrorLog::new("test error"))
}

/// The binding of `handler` to `method` and the pattern written in `text`.
pub open spec fn binding(method: Method, text: Seq<char>, handler: Handler) -> RouteView<Handler> {
    RouteView { method, pattern: pattern_of(text), handler }
}

/// What registering a resource with a `GET` handler and a refusal of `HEAD`
/// does to a table: both routes are added, or the first registration that
/// meets a route of its own method and pattern stops it.
pub open spec fn resource_registered(
    before: Seq<RouteView<Handler>>,
    after: Seq<RouteView<Handler>>,
    text: Seq<char>,
    get: Handler,
    r: Result<(), RouteError>,
) -> bool {
    let first = binding(Method::Get, text, get);
    let second = binding(Method::Head, text, Handler::MethodNotAllowed);
    if has_route(before, Method::Get, pattern_of(text)) {
        r is Err && after == before
    } else if has_route(before, Method::Head, pattern_of(text)) {
        r is Err && after == before.push(first)
    } else {
        r is Ok && after == before.push(first).push(second)
    }
}

/// Registers a resource at `pattern` under `scope`: `GET` goes to `get`, and
/// `HEAD` is refused with 405.
fn resource(scope: &Scope, table: &mut RouteTable<Handler>, pattern: &str, get: Handler) -> (r: Result<
    (),
    RouteError,
>)
    requires
        old(table).wf(),
    ensures
        final(table).wf(),
        resource_registered(old(table)@, final(table)@, scoped(scope@, pattern@), get, r),
{
    let ghost text = scoped(scope@, pattern@);
    let ghost before = table@;
    match scope.register(table, Method::Get, pattern, get) {
        Ok(()) => {},
        Err(e) => {
            return Err(e);
        },
    }
    proof {
        let first = binding(Method::Get, text, get);
        let grown = before.push(first);
        if has_route(grown, Method::Head, pattern_of(text)) {
            let i = choose|i: int|
                0 <= i < grown.len() && (#[trigger] grown[i]).method == Method::Head
                    && grown[i].pattern == pattern_of(text);
            assert(i < before.len());
            assert(before[i] == grown[i]);
        }
        if has_route(before, Method::Head, pattern_of(text)) {
            let i = choose|i: int|
                0 <= i < before.len() && (#[trigger] before[i]).method == Method::Head
                    && before[i].pattern == pattern_of(text);
            assert(grown[i] == before[i]);
        }
    }
    scope.register(table, Method::Head, pattern, Handler::MethodNotAllowed)
}

/// Registers the resource `/testtest` under `scope`.
pub fn scoped_config(scope: &Scope, table: &mut RouteTable<Handler>) -> (r: Result<(), RouteError>)
    requires
        old(table).wf(),
    ensures
        final(table).wf(),
        resource_registered(
            old(table)@,
            final(table)@,
            scoped(scope@, "/testtest"@),
            Handler::TestTest,
            r,
        ),
{
    resource(scope, table, "/testtest", Handler::TestTest)
}

/// Registers the resource `/appapp` under `scope`.
pub fn config(scope: &Scope, table: &mut RouteTable<Handler>) -> (r: Result<(), RouteError>)
    requires
        old(table).wf(),
    ensures
        final(table).wf(),
        resource_registered(old(table)@, final(table)@, scoped(scope@, "/appapp"@), Handler::AppApp, r),
{
    resource(scope, table, "/appapp", Handler::AppApp)
}

} // verus!
