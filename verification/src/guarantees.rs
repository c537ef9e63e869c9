//! What the application promises for whole requests, proved from the route
//! list and the contracts of the handlers.

use vstd::prelude::*;
use crate::error::ExtractError;
use crate::handlers::{binding, show_id_text, Handler};
use crate::json::{json_failure, lemma_user_object, JsonConfig};
use crate::method::Method;
use crate::pattern::{
    captures, captures_upto, lemma_plain_text_accepts_itself_only, path_segments,
    pattern_matches, pattern_of, segment_of, SegmentView,
};
use crate::request::{number_at, RequestView};
use crate::response::{
    bytes_response, is_client_error, json_text_response, text_response, BodyView, BAD_REQUEST,
    CONFLICT, METHOD_NOT_ALLOWED, NOT_FOUND, OK,
};
use crate::router::{
    first_match, has_route, lemma_first_match_is, lemma_first_match_wins, path_known,
    route_accepts, RouteView,
};
use crate::server::{
    app_routes, count_outcome, default_message, plan_action, ActionView, DefaultPolicy,
};
use crate::text::{
    after_sign, digit_of, lemma_split_append, lemma_split_single, u32_value,
};

verus! {

/// The segments of `/show/` followed by one more segment.
proof fn lemma_show_path_segments(id: Seq<char>)
    requires
        !id.contains('/'),
    ensures
        path_segments("/show/"@ + id) == seq![Seq::<char>::empty(), "show"@, id],
{
    reveal_strlit("/show/");
    reveal_strlit("show");
    let empty = Seq::<char>::empty();
    assert(!empty.contains('/'));
    assert(!"show"@.contains('/'));
    lemma_split_single(empty, '/');
    lemma_split_append(empty, "show"@, '/');
    lemma_split_append(empty.push('/') + "show"@, id, '/');
    assert("/show/"@ + id =~= (empty.push('/') + "show"@).push('/') + id);
    assert(seq![empty].push("show"@).push(id) =~= seq![empty, "show"@, id]);
}

/// The pattern that `/show/{id}` stands for.
proof fn lemma_show_pattern()
    ensures
        pattern_of("/show/{id}"@) == seq![
            SegmentView::Literal(Seq::<char>::empty()),
            SegmentView::Literal("show"@),
            SegmentView::Param("id"@),
        ],
{
    reveal_strlit("/show/{id}");
    reveal_strlit("show");
    reveal_strlit("{id}");
    reveal_strlit("id");
    let empty = Seq::<char>::empty();
    assert(!empty.contains('/'));
    assert(!"show"@.contains('/'));
    assert(!"{id}"@.contains('/'));
    lemma_split_single(empty, '/');
    lemma_split_append(empty, "show"@, '/');
    lemma_split_append(empty.push('/') + "show"@, "{id}"@, '/');
    assert("/show/{id}"@ =~= (empty.push('/') + "show"@).push('/') + "{id}"@);
    let pieces = path_segments("/show/{id}"@);
    assert(pieces =~= seq![empty, "show"@, "{id}"@]);
    assert("{id}"@.subrange(1, 3) =~= "id"@);
    assert(segment_of("{id}"@) == SegmentView::Param("id"@));
    assert(segment_of("show"@) == SegmentView::Literal("show"@));
    assert(segment_of(empty) == SegmentView::Literal(empty));
    assert(pattern_of("/show/{id}"@) =~= seq![
        SegmentView::Literal(empty),
        SegmentView::Literal("show"@),
        SegmentView::Param("id"@),
    ]);
}

/// The pattern that `/test/{v1}/{v2}/` stands for has five segments.
proof fn lemma_test_pattern_len()
    ensures
        pattern_of("/test/{v1}/{v2}/"@).len() == 5,
{
    reveal_strlit("/test/{v1}/{v2}/");
    reveal_strlit("test");
    reveal_strlit("{v1}");
    reveal_strlit("{v2}");
    let empty = Seq::<char>::empty();
    assert(!empty.contains('/'));
    assert(!"test"@.contains('/'));
    assert(!"{v1}"@.contains('/'));
    assert(!"{v2}"@.contains('/'));
    let s1 = empty.push('/') + "test"@;
    let s2 = s1.push('/') + "{v1}"@;
    let s3 = s2.push('/') + "{v2}"@;
    let s4 = s3.push('/') + empty;
    lemma_split_single(empty, '/');
    lemma_split_append(empty, "test"@, '/');
    lemma_split_append(s1, "{v1}"@, '/');
    lemma_split_append(s2, "{v2}"@, '/');
    lemma_split_append(s3, empty, '/');
    assert("/test/{v1}/{v2}/"@ =~= s4);
}

/// A text that is a number is one non-empty path segment: it holds no
/// slash.
proof fn lemma_number_is_one_segment(id: Seq<char>)
    requires
        u32_value(id) is Some,
    ensures
        id.len() > 0,
        !id.contains('/'),
{
    let digits = after_sign(id);
    if id.contains('/') {
        let k = choose|k: int| 0 <= k < id.len() && id[k] == '/';
        if id[0] == '+' {
            assert(digits[k - 1] == id[k]);
            assert(digit_of(digits[k - 1]) is Some);
        } else {
            assert(digit_of(digits[k]) is Some);
        }
    }
}

/// Where `/show/{id}` is asked for with `GET` and one non-empty segment in
/// the place of `id`, the answer is 200 with the text `show_id: ` and the
/// segment as it was written if the segment is a 32-bit unsigned number,
/// and 400, a client error, if it is not.
pub proof fn lemma_show_id_answers(
    id: Seq<char>,
    policy: DefaultPolicy,
    name: Seq<char>,
    json: JsonConfig,
    request: RequestView,
)
    requires
        id.len() > 0,
        !id.contains('/'),
        request.method == Method::Get,
        request.path == "/show/"@ + id,
    ensures
        plan_action(app_routes(), policy, name, json, request) == ActionView::Reply(
            if u32_value(id) is Some {
                text_response(OK, show_id_text(id))
            } else {
                text_response(BAD_REQUEST, "bad request"@)
            },
        ),
        is_client_error(BAD_REQUEST),
{
    let routes = app_routes();
    let pieces = path_segments(request.path);
    lemma_show_path_segments(id);
    lemma_show_pattern();
    lemma_test_pattern_len();
    reveal_strlit("/show/");
    reveal_strlit("/appapp");
    reveal_strlit("/api/testtest");
    reveal_strlit("/root");
    reveal_strlit("/app_name");
    reveal_strlit("/mutable_state");
    reveal_strlit("/return_json");
    reveal_strlit("/index_error");
    reveal_strlit("/400");
    reveal_strlit("/408");
    reveal_strlit("/500");
    reveal_strlit("/app/index.html");
    reveal_strlit("/app/");
    reveal_strlit("/app");
    reveal_strlit("/");
    lemma_plain_text_accepts_itself_only("/appapp"@);
    lemma_plain_text_accepts_itself_only("/api/testtest"@);
    lemma_plain_text_accepts_itself_only("/root"@);
    lemma_plain_text_accepts_itself_only("/app_name"@);
    lemma_plain_text_accepts_itself_only("/mutable_state"@);
    lemma_plain_text_accepts_itself_only("/return_json"@);
    lemma_plain_text_accepts_itself_only("/index_error"@);
    lemma_plain_text_accepts_itself_only("/400"@);
    lemma_plain_text_accepts_itself_only("/408"@);
    lemma_plain_text_accepts_itself_only("/500"@);
    lemma_plain_text_accepts_itself_only("/app/index.html"@);
    lemma_plain_text_accepts_itself_only("/app/"@);
    lemma_plain_text_accepts_itself_only("/app"@);
    lemma_plain_text_accepts_itself_only("/"@);
    let path = request.path;
    assert(path.len() >= 7);
    assert(path[1] == 's');
    let show = pattern_of("/show/{id}"@);
    assert(pattern_matches(show, pieces));
    assert(routes[20] == binding(Method::Get, "/show/{id}"@, Handler::ShowId));
    assert forall|k: int| 0 <= k < 20 implies !route_accepts(
        #[trigger] routes[k],
        Method::Get,
        pieces,
    ) by {}
    lemma_first_match_is(routes, Method::Get, pieces, 20);
    assert(captures(show, pieces) =~= seq![("id"@, id)]) by {
        assert(captures_upto(show, pieces, 0) =~= Seq::empty());
        assert(captures_upto(show, pieces, 1) =~= Seq::empty());
        assert(captures_upto(show, pieces, 2) =~= Seq::empty());
        assert(captures_upto(show, pieces, 3) =~= seq![("id"@, id)]);
    }
    assert(number_at(captures(show, pieces), 0) == u32_value(id));
    reveal_strlit("bad request");
}

/// Every 32-bit unsigned number is echoed as it was written, leading zeros
/// and a plus sign included: the answer to `GET /show/` and the number is
/// 200, and its text ends with the very characters of the request.
pub proof fn lemma_show_id_echoes_numbers(
    id: Seq<char>,
    policy: DefaultPolicy,
    name: Seq<char>,
    json: JsonConfig,
    request: RequestView,
)
    requires
        u32_value(id) is Some,
        request.method == Method::Get,
        request.path == "/show/"@ + id,
    ensures
        plan_action(app_routes(), policy, name, json, request) == ActionView::Reply(
            text_response(OK, "show_id: "@ + id),
        ),
{
    lemma_number_is_one_segment(id);
    lemma_show_id_answers(id, policy, name, json, request);
}

/// The facts about the plain `GET` routes that stand before `/show/{id}`:
/// each accepts the path that is written like it and no other.
proof fn lemma_plain_get_routes()
    ensures
        forall|path: Seq<char>|
            #![trigger path_segments(path)]
            {
                &&& pattern_matches(pattern_of("/appapp"@), path_segments(path)) <==> path
                    == "/appapp"@
                &&& pattern_matches(pattern_of("/api/testtest"@), path_segments(path)) <==> path
                    == "/api/testtest"@
                &&& pattern_matches(pattern_of("/root"@), path_segments(path)) <==> path == "/root"@
                &&& pattern_matches(pattern_of("/app_name"@), path_segments(path)) <==> path
                    == "/app_name"@
                &&& pattern_matches(pattern_of("/mutable_state"@), path_segments(path)) <==> path
                    == "/mutable_state"@
                &&& pattern_matches(pattern_of("/return_json"@), path_segments(path)) <==> path
                    == "/return_json"@
                &&& pattern_matches(pattern_of("/index_error"@), path_segments(path)) <==> path
                    == "/index_error"@
                &&& pattern_matches(pattern_of("/400"@), path_segments(path)) <==> path == "/400"@
                &&& pattern_matches(pattern_of("/408"@), path_segments(path)) <==> path == "/408"@
                &&& pattern_matches(pattern_of("/500"@), path_segments(path)) <==> path == "/500"@
                &&& pattern_matches(pattern_of("/app/index.html"@), path_segments(path)) <==> path
                    == "/app/index.html"@
                &&& pattern_matches(pattern_of("/app/"@), path_segments(path)) <==> path == "/app/"@
                &&& pattern_matches(pattern_of("/app"@), path_segments(path)) <==> path == "/app"@
            },
{
    reveal_strlit("/appapp");
    reveal_strlit("/api/testtest");
    reveal_strlit("/root");
    reveal_strlit("/app_name");
    reveal_strlit("/mutable_state");
    reveal_strlit("/return_json");
    reveal_strlit("/index_error");
    reveal_strlit("/400");
    reveal_strlit("/408");
    reveal_strlit("/500");
    reveal_strlit("/app/index.html");
    reveal_strlit("/app/");
    reveal_strlit("/app");
    lemma_plain_text_accepts_itself_only("/appapp"@);
    lemma_plain_text_accepts_itself_only("/api/testtest"@);
    lemma_plain_text_accepts_itself_only("/root"@);
    lemma_plain_text_accepts_itself_only("/app_name"@);
    lemma_plain_text_accepts_itself_only("/mutable_state"@);
    lemma_plain_text_accepts_itself_only("/return_json"@);
    lemma_plain_text_accepts_itself_only("/index_error"@);
    lemma_plain_text_accepts_itself_only("/400"@);
    lemma_plain_text_accepts_itself_only("/408"@);
    lemma_plain_text_accepts_itself_only("/500"@);
    lemma_plain_text_accepts_itself_only("/app/index.html"@);
    lemma_plain_text_accepts_itself_only("/app/"@);
    lemma_plain_text_accepts_itself_only("/app"@);
}

/// The `GET` route at `index`, bound to a plain text, is the one that serves
/// `GET` on the path written like that text, provided that the texts of the
/// routes before it differ from it.
proof fn lemma_plain_get_route_serves(index: int, text: Seq<char>, handler: Handler)
    requires
        0 <= index <= 16,
        app_routes()[index] == binding(Method::Get, text, handler),
        pattern_matches(pattern_of(text), path_segments(text)),
        text != "/appapp"@ || index <= 0,
        text != "/api/testtest"@ || index <= 2,
        text != "/root"@ || index <= 4,
        text != "/app_name"@ || index <= 5,
        text != "/mutable_state"@ || index <= 6,
        text != "/return_json"@ || index <= 9,
        text != "/index_error"@ || index <= 10,
        text != "/400"@ || index <= 11,
        text != "/408"@ || index <= 12,
        text != "/500"@ || index <= 13,
        text != "/app/index.html"@ || index <= 14,
        text != "/app/"@ || index <= 15,
    ensures
        first_match(app_routes(), Method::Get, path_segments(text)) == Some(index),
{
    let routes = app_routes();
    let pieces = path_segments(text);
    lemma_plain_get_routes();
    assert forall|k: int| 0 <= k < index implies !route_accepts(
        #[trigger] routes[k],
        Method::Get,
        pieces,
    ) by {}
    lemma_first_match_is(routes, Method::Get, pieces, index);
}

/// `GET /return_json` always answers 200 with the JSON content type and the
/// fixed text `{"name":"user"}`.
pub proof fn lemma_return_json_is_fixed(
    policy: DefaultPolicy,
    name: Seq<char>,
    json: JsonConfig,
    request: RequestView,
)
    requires
        request.method == Method::Get,
        request.path == "/return_json"@,
    ensures
        plan_action(app_routes(), policy, name, json, request) == ActionView::Reply(
            json_text_response(OK, "{\"name\":\"user\"}"@),
        ),
{
    lemma_plain_get_routes();
    reveal_strlit("/return_json");
    reveal_strlit("/appapp");
    reveal_strlit("/api/testtest");
    reveal_strlit("/root");
    reveal_strlit("/app_name");
    reveal_strlit("/mutable_state");
    lemma_plain_get_route_serves(9, "/return_json"@, Handler::ReturnJson);
    lemma_user_object();
}

/// The scope `/app` answers on its three paths with 200 and three texts of
/// which no two are the same: `/app`, `/app/` and `/app/index.html` are
/// routes of their own.
pub proof fn lemma_scope_roots_answer_distinctly(
    policy: DefaultPolicy,
    name: Seq<char>,
    json: JsonConfig,
    bare: RequestView,
    slash: RequestView,
    page: RequestView,
)
    requires
        bare.method == Method::Get && bare.path == "/app"@,
        slash.method == Method::Get && slash.path == "/app/"@,
        page.method == Method::Get && page.path == "/app/index.html"@,
    ensures
        plan_action(app_routes(), policy, name, json, bare) == ActionView::Reply(
            text_response(OK, "Hello app"@),
        ),
        plan_action(app_routes(), policy, name, json, slash) == ActionView::Reply(
            text_response(OK, "Hello app/index"@),
        ),
        plan_action(app_routes(), policy, name, json, page) == ActionView::Reply(
            text_response(OK, "Hello app/index.html"@),
        ),
        "Hello app"@ != "Hello app/index"@,
        "Hello app"@ != "Hello app/index.html"@,
        "Hello app/index"@ != "Hello app/index.html"@,
{
    lemma_plain_get_routes();
    reveal_strlit("/appapp");
    reveal_strlit("/api/testtest");
    reveal_strlit("/root");
    reveal_strlit("/app_name");
    reveal_strlit("/mutable_state");
    reveal_strlit("/return_json");
    reveal_strlit("/index_error");
    reveal_strlit("/400");
    reveal_strlit("/408");
    reveal_strlit("/500");
    reveal_strlit("/app/index.html");
    reveal_strlit("/app/");
    reveal_strlit("/app");
    lemma_plain_get_route_serves(14, "/app/index.html"@, Handler::Index);
    lemma_plain_get_route_serves(15, "/app/"@, Handler::Index2);
    lemma_plain_get_route_serves(16, "/app"@, Handler::IndexRoot);
    reveal_strlit("Hello app");
    reveal_strlit("Hello app/index");
    reveal_strlit("Hello app/index.html");
    assert("Hello app"@.len() == 9);
    assert("Hello app/index"@.len() == 15);
    assert("Hello app/index.html"@.len() == 20);
}

/// `POST /echo` sends the request body back, byte for byte, with the
/// status 200.
pub proof fn lemma_echo_round_trip(
    policy: DefaultPolicy,
    name: Seq<char>,
    json: JsonConfig,
    request: RequestView,
)
    requires
        request.method == Method::Post,
        request.path == "/echo"@,
    ensures
        plan_action(app_routes(), policy, name, json, request) == ActionView::Reply(
            bytes_response(OK, request.body),
        ),
{
    let routes = app_routes();
    let pieces = path_segments(request.path);
    reveal_strlit("/echo");
    reveal_strlit("/mutable_state");
    reveal_strlit("/json_info");
    lemma_plain_text_accepts_itself_only("/echo"@);
    lemma_plain_text_accepts_itself_only("/mutable_state"@);
    lemma_plain_text_accepts_itself_only("/json_info"@);
    assert(routes[18] == binding(Method::Post, "/echo"@, Handler::Echo));
    assert forall|k: int| 0 <= k < 18 implies !route_accepts(
        #[trigger] routes[k],
        Method::Post,
        pieces,
    ) by {}
    lemma_first_match_is(routes, Method::Post, pieces, 18);
}

/// `POST /json_info` asks for the body to be decoded if it is no longer
/// than the limit, and refuses a longer one at once: under the
/// application's own settings with 409 and the message `bad request`.
pub proof fn lemma_json_info_admits_up_to_the_limit(
    policy: DefaultPolicy,
    name: Seq<char>,
    json: JsonConfig,
    request: RequestView,
)
    requires
        request.method == Method::Post,
        request.path == "/json_info"@,
    ensures
        plan_action(app_routes(), policy, name, json, request) == if request.body.len()
            > json.limit {
            ActionView::Reply(json_failure(json))
        } else {
            ActionView::DecodeInfo
        },
        json.rejection == Some(CONFLICT) ==> json_failure(json) == text_response(
            CONFLICT,
            "bad request"@,
        ),
{
    let routes = app_routes();
    let pieces = path_segments(request.path);
    reveal_strlit("/mutable_state");
    reveal_strlit("/json_info");
    lemma_plain_text_accepts_itself_only("/mutable_state"@);
    lemma_plain_text_accepts_itself_only("/json_info"@);
    assert(routes[8] == binding(Method::Post, "/json_info"@, Handler::JsonInfo));
    assert forall|k: int| 0 <= k < 8 implies !route_accepts(
        #[trigger] routes[k],
        Method::Post,
        pieces,
    ) by {}
    lemma_first_match_is(routes, Method::Post, pieces, 8);
}

/// `/mutable_state` counts, under `GET` and under `POST`: the request is
/// answered from the shared counter.
pub proof fn lemma_mutable_state_counts(
    policy: DefaultPolicy,
    name: Seq<char>,
    json: JsonConfig,
    request: RequestView,
)
    requires
        request.method == Method::Get || request.method == Method::Post,
        request.path == "/mutable_state"@,
    ensures
        plan_action(app_routes(), policy, name, json, request) == ActionView::Count,
{
    let routes = app_routes();
    let pieces = path_segments(request.path);
    reveal_strlit("/mutable_state");
    reveal_strlit("/appapp");
    reveal_strlit("/api/testtest");
    reveal_strlit("/root");
    reveal_strlit("/app_name");
    lemma_plain_text_accepts_itself_only("/mutable_state"@);
    lemma_plain_text_accepts_itself_only("/appapp"@);
    lemma_plain_text_accepts_itself_only("/api/testtest"@);
    lemma_plain_text_accepts_itself_only("/root"@);
    lemma_plain_text_accepts_itself_only("/app_name"@);
    assert(routes[6] == binding(Method::Get, "/mutable_state"@, Handler::MutableState));
    assert(routes[7] == binding(Method::Post, "/mutable_state"@, Handler::MutableState));
    if request.method == Method::Get {
        assert forall|k: int| 0 <= k < 6 implies !route_accepts(
            #[trigger] routes[k],
            Method::Get,
            pieces,
        ) by {}
        lemma_first_match_is(routes, Method::Get, pieces, 6);
    } else {
        assert forall|k: int| 0 <= k < 7 implies !route_accepts(
            #[trigger] routes[k],
            Method::Post,
            pieces,
        ) by {}
        lemma_first_match_is(routes, Method::Post, pieces, 7);
    }
}

/// The counts that `n` requests in a row report, the first of them meeting
/// a counter that stands at `start`.
pub open spec fn reported_counts(start: int, n: nat) -> Seq<int>
    decreases n,
{
    if n == 0 {
        Seq::empty()
    } else {
        seq![count_outcome(start).0] + reported_counts(count_outcome(start).0, (n - 1) as nat)
    }
}

/// Requests that count one after another report consecutive numbers: the
/// request at position `i` of a run from `start` reports `start + i + 1`,
/// as long as the counter has room.
pub proof fn lemma_reported_counts(start: int, n: nat)
    requires
        start + n <= i32::MAX,
    ensures
        reported_counts(start, n).len() == n,
        forall|i: int| 0 <= i < n ==> #[trigger] reported_counts(start, n)[i] == start + i + 1,
    decreases n,
{
    if n > 0 {
        lemma_reported_counts(start + 1, (n - 1) as nat);
        let rest = reported_counts(start + 1, (n - 1) as nat);
        assert forall|i: int| 0 <= i < n implies #[trigger] reported_counts(start, n)[i] == start + i
            + 1 by {
            if i > 0 {
                assert(reported_counts(start, n)[i] == rest[i - 1]);
            }
        }
    }
}

/// After `n` counted requests on a fresh counter the numbers reported are
/// exactly `1, 2, ..., n`: none twice, none left out.
pub proof fn lemma_counts_from_zero_are_one_to_n(n: nat)
    requires
        n <= i32::MAX,
    ensures
        reported_counts(0, n).no_duplicates(),
        reported_counts(0, n).to_set() == Set::new(|v: int| 1 <= v <= n),
{
    lemma_reported_counts(0, n);
    let counts = reported_counts(0, n);
    assert forall|v: int| counts.to_set().contains(v) <==> 1 <= v <= n by {
        if 1 <= v <= n {
            assert(counts[v - 1] == v);
            assert(counts.contains(v));
        }
        if counts.contains(v) {
            let i = choose|i: int| 0 <= i < counts.len() && counts[i] == v;
            assert(counts[i] == i + 1);
        }
    }
    assert(counts.to_set() =~= Set::new(|v: int| 1 <= v <= n));
}

/// A request on a path that some route accepts, under a method that no
/// route serves there, is answered with 405 and a message, whatever the
/// policy.
pub proof fn lemma_known_path_wrong_method_is_405(
    routes: Seq<RouteView<Handler>>,
    policy: DefaultPolicy,
    name: Seq<char>,
    json: JsonConfig,
    request: RequestView,
)
    requires
        path_known(routes, path_segments(request.path)),
        forall|k: int|
            0 <= k < routes.len() ==> !route_accepts(
                #[trigger] routes[k],
                request.method,
                path_segments(request.path),
            ),
    ensures
        plan_action(routes, policy, name, json, request) == ActionView::Reply(
            text_response(METHOD_NOT_ALLOWED, "method not allowed"@),
        ),
{
    lemma_first_match_wins(routes, request.method, path_segments(request.path));
}

/// A request on a path that no route accepts is answered by the policy:
/// with 404 under the conventional one; under the one that rejects other
/// methods, with 404 for `GET` and with 405 for every other method. Either
/// answer carries its message.
pub proof fn lemma_unknown_path_gets_the_default(
    routes: Seq<RouteView<Handler>>,
    policy: DefaultPolicy,
    name: Seq<char>,
    json: JsonConfig,
    request: RequestView,
)
    requires
        !path_known(routes, path_segments(request.path)),
    ensures
        plan_action(routes, policy, name, json, request) == ActionView::Reply(
            if policy == DefaultPolicy::RejectNonGet && request.method != Method::Get {
                text_response(METHOD_NOT_ALLOWED, "method not allowed"@)
            } else {
                text_response(NOT_FOUND, "not found"@)
            },
        ),
{
    let pieces = path_segments(request.path);
    lemma_first_match_wins(routes, request.method, pieces);
    if first_match(routes, request.method, pieces) is Some {
        let i = first_match(routes, request.method, pieces).unwrap();
        assert(pattern_matches(routes[i].pattern, pieces));
    }
}

/// Every answer that refuses a request carries a message that is not
/// empty: the default answers, and the refusal of a JSON body.
pub proof fn lemma_refusals_carry_a_message(status: u16, json: JsonConfig)
    ensures
        default_message(status).len() > 0,
        json_failure(json).body == BodyView::Text(ExtractError::BadRequest.message_spec()),
        ExtractError::BadRequest.message_spec().len() > 0,
{
    reveal_strlit("method not allowed");
    reveal_strlit("not found");
    reveal_strlit("bad request");
}

/// Once a method and a pattern are bound, the table holds that pair, so a
/// second registration of it is refused.
pub proof fn lemma_registered_pair_is_held(routes: Seq<RouteView<Handler>>, added: RouteView<Handler>)
    ensures
        has_route(routes.push(added), added.method, added.pattern),
{
    let grown = routes.push(added);
    assert(grown[routes.len() as int] == added);
}

} // verus!
