use http_routes::fields::Fields;
use http_routes::method::Method;
use http_routes::pattern::Pattern;
use http_routes::router::{Lookup, RouteError, RouteTable, Scope};
use http_routes::text::{cut, parse_u32, render_decimal, render_signed, same_text, split};

fn pairs(fields: &Fields) -> Vec<(String, String)> {
    (0..fields.len())
        .map(|i| (fields.name_at(i).clone(), fields.value_at(i).clone()))
        .collect()
}

fn owned(items: &[(&str, &str)]) -> Vec<(String, String)> {
    items.iter().map(|(a, b)| (a.to_string(), b.to_string())).collect()
}

#[test]
fn split_keeps_empty_pieces() {
    assert_eq!(split("/a//b/", '/'), vec!["", "a", "", "b", ""]);
    assert_eq!(split("", '/'), vec![""]);
    assert_eq!(split("/", '/'), vec!["", ""]);
    assert_eq!(split("abc", '/'), vec!["abc"]);
    assert_eq!(split("é/ü", '/'), vec!["é", "ü"]);
}

#[test]
fn cut_splits_at_the_first_separator_only() {
    assert_eq!(cut("a=b=c", '='), ("a".to_string(), "b=c".to_string()));
    assert_eq!(cut("abc", '='), ("abc".to_string(), String::new()));
    assert_eq!(cut("=x", '='), (String::new(), "x".to_string()));
    assert_eq!(cut("x=", '='), ("x".to_string(), String::new()));
    assert_eq!(cut("", '='), (String::new(), String::new()));
}

#[test]
fn same_text_compares_contents() {
    assert!(same_text("GET", "GET"));
    assert!(!same_text("GET", "get"));
    assert!(!same_text("GET", "GETS"));
    assert!(same_text("", ""));
}

#[test]
fn parse_u32_reads_plain_numbers() {
    assert_eq!(parse_u32("0"), Some(0));
    assert_eq!(parse_u32("42"), Some(42));
    assert_eq!(parse_u32("4294967295"), Some(u32::MAX));
}

#[test]
fn parse_u32_accepts_a_plus_sign_and_leading_zeros() {
    assert_eq!(parse_u32("+5"), Some(5));
    assert_eq!(parse_u32("007"), Some(7));
    assert_eq!(parse_u32("+000"), Some(0));
    assert_eq!(parse_u32("000000000000000000000000000004294967295"), Some(u32::MAX));
}

#[test]
fn parse_u32_rejects_everything_else() {
    for text in [
        "", "+", "-1", " 1", "1 ", "12a", "a12", "1.5", "++1", "1+", "0x10", "４２",
        "4294967296", "99999999999999999999999999", "00000000004294967296", "4294967296x",
    ] {
        assert_eq!(parse_u32(text), None, "{:?}", text);
    }
}

#[test]
fn parse_u32_agrees_with_std() {
    for text in ["0", "1", "+1", "-0", "00", "+", "", "4294967295", "4294967296", "12_3", "٣"] {
        assert_eq!(parse_u32(text), text.parse::<u32>().ok(), "{:?}", text);
    }
}

#[test]
fn render_decimal_is_canonical() {
    assert_eq!(render_decimal(0), "0");
    assert_eq!(render_decimal(7), "7");
    assert_eq!(render_decimal(10), "10");
    assert_eq!(render_decimal(1234567890), "1234567890");
    assert_eq!(render_decimal(u64::MAX), "18446744073709551615");
}

#[test]
fn render_signed_puts_a_minus_before_negative_numbers() {
    assert_eq!(render_signed(0), "0");
    assert_eq!(render_signed(15), "15");
    assert_eq!(render_signed(-5), "-5");
    assert_eq!(render_signed(i32::MAX), "2147483647");
    assert_eq!(render_signed(i32::MIN), "-2147483648");
}

#[test]
fn rendering_then_parsing_gives_the_number_back() {
    for n in [0u32, 1, 9, 10, 99, 100, 65535, 4294967295] {
        assert_eq!(parse_u32(&render_decimal(n as u64)), Some(n));
    }
}

#[test]
fn method_names_round_trip() {
    for m in [
        Method::Get,
        Method::Post,
        Method::Head,
        Method::Put,
        Method::Delete,
        Method::Patch,
        Method::Options,
    ] {
        assert_eq!(Method::parse(m.name()), Some(m));
    }
    assert_eq!(Method::Get.name(), "GET");
    assert_eq!(Method::Options.name(), "OPTIONS");
    assert_eq!(Method::parse("get"), None);
    assert_eq!(Method::parse("TRACE"), None);
    assert_eq!(Method::parse(""), None);
}

#[test]
fn query_strings_keep_order_and_repeated_names() {
    let q = Fields::parse_query("a=1&b=2&a=3&&c&d=&=e&f=g=h");
    assert_eq!(
        pairs(&q),
        owned(&[("a", "1"), ("b", "2"), ("a", "3"), ("c", ""), ("d", ""), ("", "e"), ("f", "g=h")])
    );
    assert_eq!(q.get("a").map(String::as_str), Some("1"));
    assert_eq!(q.get("c").map(String::as_str), Some(""));
    assert_eq!(q.get("f").map(String::as_str), Some("g=h"));
    assert_eq!(q.get("z"), None);
    assert_eq!(Fields::parse_query("").len(), 0);
    assert_eq!(Fields::parse_query("&&").len(), 0);
}

#[test]
fn fields_get_returns_the_first_binding() {
    let mut f = Fields::new();
    assert_eq!(f.len(), 0);
    assert_eq!(f.get("k"), None);
    f.push("k".to_string(), "first".to_string());
    f.push("other".to_string(), "x".to_string());
    f.push("k".to_string(), "second".to_string());
    assert_eq!(f.len(), 3);
    assert_eq!(f.get("k").map(String::as_str), Some("first"));
    assert_eq!(f.name_at(2), "k");
    assert_eq!(f.value_at(2), "second");
}

#[test]
fn pattern_captures_named_parameters_in_order() {
    let p = Pattern::parse("/{username}/{id}/index.html");
    assert_eq!(p.len(), 4);
    let params = p.match_path("/alice/7/index.html").unwrap();
    assert_eq!(pairs(&params), owned(&[("username", "alice"), ("id", "7")]));
}

#[test]
fn pattern_needs_the_same_number_of_segments() {
    let p = Pattern::parse("/show/{id}");
    assert!(p.match_path("/show/42").is_some());
    assert!(p.match_path("/show/42/").is_none());
    assert!(p.match_path("/show").is_none());
    assert!(p.match_path("show/42").is_none());
    assert!(p.match_path("/show/42/x").is_none());
}

#[test]
fn parameters_match_non_empty_segments_only() {
    let p = Pattern::parse("/show/{id}");
    assert!(p.match_path("/show/").is_none());
    assert!(p.match_path("/show/x").is_some());
    let q = Pattern::parse("/test/{v1}/{v2}/");
    assert!(q.match_path("/test/a/b/").is_some());
    assert!(q.match_path("/test/a/b").is_none());
    assert!(q.match_path("/test//b/").is_none());
}

#[test]
fn literal_segments_must_be_equal() {
    let p = Pattern::parse("/app/index.html");
    assert!(p.match_path("/app/index.html").is_some());
    assert_eq!(p.match_path("/app/index.html").unwrap().len(), 0);
    assert!(p.match_path("/app/index.htm").is_none());
    assert!(p.match_path("/App/index.html").is_none());
}

#[test]
fn trailing_slash_variants_are_distinct_patterns() {
    let with = Pattern::parse("/app/");
    let without = Pattern::parse("/app");
    assert!(!with.same_as(&without));
    assert!(with.match_path("/app/").is_some());
    assert!(with.match_path("/app").is_none());
    assert!(without.match_path("/app").is_some());
    assert!(without.match_path("/app/").is_none());
}

#[test]
fn braces_without_a_name_are_literal() {
    let p = Pattern::parse("/{}/x");
    assert!(p.match_path("/{}/x").is_some());
    assert!(p.match_path("/a/x").is_none());
    let q = Pattern::parse("/{a/x");
    assert!(q.match_path("/{a/x").is_some());
}

#[test]
fn patterns_are_the_same_only_with_the_same_names() {
    assert!(Pattern::parse("/a/{x}").same_as(&Pattern::parse("/a/{x}")));
    assert!(!Pattern::parse("/a/{x}").same_as(&Pattern::parse("/a/{y}")));
    assert!(!Pattern::parse("/a/{x}").same_as(&Pattern::parse("/a/x")));
    assert!(!Pattern::parse("/a").same_as(&Pattern::parse("/a/b")));
}

#[test]
fn accepts_agrees_with_match_segments() {
    let p = Pattern::parse("/show/{id}");
    for path in ["/show/1", "/show/", "/show", "/x/1", "/show/1/2"] {
        let pieces = split(path, '/');
        assert_eq!(p.accepts(&pieces), p.match_segments(&pieces).is_some(), "{}", path);
    }
}

#[test]
fn registering_the_same_pair_twice_is_rejected() {
    let mut t: RouteTable<u8> = RouteTable::new();
    assert_eq!(t.register(Method::Get, "/a/{x}", 1), Ok(()));
    assert_eq!(t.register(Method::Get, "/a/{x}", 2), Err(RouteError::Duplicate));
    assert_eq!(t.len(), 1);
    assert_eq!(*t.handler_at(0), 1);
    assert_eq!(t.register(Method::Post, "/a/{x}", 3), Ok(()));
    assert_eq!(t.register(Method::Get, "/a/{y}", 4), Ok(()));
    assert_eq!(t.register(Method::Get, "/a/{x}/", 5), Ok(()));
    assert_eq!(t.len(), 4);
    assert_eq!(t.method_at(1), Method::Post);
    assert!(t.contains(Method::Get, &Pattern::parse("/a/{y}")));
    assert!(!t.contains(Method::Head, &Pattern::parse("/a/{y}")));
}

#[test]
fn the_route_registered_first_wins() {
    let mut t: RouteTable<&'static str> = RouteTable::new();
    t.register(Method::Get, "/a/{x}", "first").unwrap();
    t.register(Method::Get, "/a/{y}", "second").unwrap();
    t.register(Method::Get, "/a/b", "third").unwrap();
    match t.find(Method::Get, "/a/b") {
        Lookup::Found { index, params } => {
            assert_eq!(index, 0);
            assert_eq!(*t.handler_at(index), "first");
            assert_eq!(pairs(&params), owned(&[("x", "b")]));
        }
        other => panic!("{:?}", other),
    }
}

#[test]
fn a_literal_route_registered_first_wins_over_a_parameter() {
    let mut t: RouteTable<&'static str> = RouteTable::new();
    t.register(Method::Get, "/a/b", "literal").unwrap();
    t.register(Method::Get, "/a/{x}", "param").unwrap();
    match t.find(Method::Get, "/a/b") {
        Lookup::Found { index, .. } => assert_eq!(*t.handler_at(index), "literal"),
        other => panic!("{:?}", other),
    }
    match t.find(Method::Get, "/a/c") {
        Lookup::Found { index, .. } => assert_eq!(*t.handler_at(index), "param"),
        other => panic!("{:?}", other),
    }
}

#[test]
fn no_match_tells_whether_the_path_is_known() {
    let mut t: RouteTable<u8> = RouteTable::new();
    t.register(Method::Post, "/echo", 0).unwrap();
    t.register(Method::Get, "/show/{id}", 1).unwrap();
    assert!(matches!(t.find(Method::Get, "/echo"), Lookup::NoMatch { path_known: true }));
    assert!(matches!(t.find(Method::Delete, "/show/3"), Lookup::NoMatch { path_known: true }));
    assert!(matches!(t.find(Method::Get, "/nowhere"), Lookup::NoMatch { path_known: false }));
    assert!(matches!(t.find(Method::Post, "/show/"), Lookup::NoMatch { path_known: false }));
    let empty: RouteTable<u8> = RouteTable::new();
    assert!(matches!(empty.find(Method::Get, "/"), Lookup::NoMatch { path_known: false }));
}

#[test]
fn find_segments_agrees_with_find() {
    let mut t: RouteTable<u8> = RouteTable::new();
    t.register(Method::Get, "/show/{id}", 1).unwrap();
    let pieces = split("/show/9", '/');
    assert!(matches!(t.find_segments(Method::Get, &pieces), Lookup::Found { index: 0, .. }));
}

#[test]
fn scopes_put_their_prefix_before_patterns() {
    let app = Scope::new("/app");
    assert_eq!(app.prefix(), "/app");
    assert_eq!(app.path("index.html"), "/app/index.html");
    assert_eq!(app.path("/"), "/app/");
    assert_eq!(app.path(""), "/app");
    assert_eq!(app.path("/x/{y}"), "/app/x/{y}");
    assert_eq!(Scope::new("").path("/root"), "/root");
    assert_eq!(Scope::new("").path("root"), "/root");
}

#[test]
fn scopes_nest() {
    let api = Scope::new("/api");
    let v1 = api.nest("v1");
    assert_eq!(v1.prefix(), "/api/v1");
    assert_eq!(v1.path("/users/{id}"), "/api/v1/users/{id}");
    assert_eq!(api.nest("/v2").nest("").path("x"), "/api/v2/x");
}

#[test]
fn scoped_registration_binds_the_full_pattern() {
    let mut t: RouteTable<u8> = RouteTable::new();
    let app = Scope::new("/app");
    assert_eq!(app.register(&mut t, Method::Get, "index.html", 0), Ok(()));
    assert_eq!(app.register(&mut t, Method::Get, "/", 1), Ok(()));
    assert_eq!(app.register(&mut t, Method::Get, "", 2), Ok(()));
    assert_eq!(app.register(&mut t, Method::Get, "/index.html", 3), Err(RouteError::Duplicate));
    assert!(matches!(t.find(Method::Get, "/app/index.html"), Lookup::Found { index: 0, .. }));
    assert!(matches!(t.find(Method::Get, "/app/"), Lookup::Found { index: 1, .. }));
    assert!(matches!(t.find(Method::Get, "/app"), Lookup::Found { index: 2, .. }));
    assert!(matches!(t.find(Method::Get, "/index.html"), Lookup::NoMatch { path_known: false }));
}
