use http_batch::headers::header_is_valid;
use http_batch::request::{
    keep_valid_headers, method_from_upper, name_or_default, prepare_request, resolve_method,
    HttpMethod, Payload, RequestSpec,
};

fn pairs(items: &[(&str, &str)]) -> Vec<(String, String)> {
    items.iter().map(|(k, v)| (k.to_string(), v.to_string())).collect()
}

fn spec(method: &str) -> RequestSpec {
    RequestSpec {
        name: Some("probe".to_string()),
        url: "http://localhost:8080/items".to_string(),
        method: method.to_string(),
        headers: None,
        params: None,
        body: None,
        form: None,
    }
}

fn json(text: &str) -> serde_json::Value {
    serde_json::from_str(text).unwrap()
}

#[test]
fn the_five_verbs_resolve() {
    assert_eq!(resolve_method("GET"), Some(HttpMethod::Get));
    assert_eq!(resolve_method("POST"), Some(HttpMethod::Post));
    assert_eq!(resolve_method("PUT"), Some(HttpMethod::Put));
    assert_eq!(resolve_method("DELETE"), Some(HttpMethod::Delete));
    assert_eq!(resolve_method("PATCH"), Some(HttpMethod::Patch));
}

#[test]
fn verbs_resolve_whatever_their_case() {
    assert_eq!(resolve_method("get"), Some(HttpMethod::Get));
    assert_eq!(resolve_method("Post"), Some(HttpMethod::Post));
    assert_eq!(resolve_method("pUt"), Some(HttpMethod::Put));
    assert_eq!(resolve_method("delete"), Some(HttpMethod::Delete));
    assert_eq!(resolve_method("patcH"), Some(HttpMethod::Patch));
}

#[test]
fn other_methods_do_not_resolve() {
    assert_eq!(resolve_method("HEAD"), None);
    assert_eq!(resolve_method("OPTIONS"), None);
    assert_eq!(resolve_method(""), None);
    assert_eq!(resolve_method(" GET"), None);
    assert_eq!(resolve_method("GETS"), None);
}

#[test]
fn upper_case_lookup_is_exact() {
    assert_eq!(method_from_upper("GET"), Some(HttpMethod::Get));
    assert_eq!(method_from_upper("get"), None);
    assert_eq!(method_from_upper("PATCH"), Some(HttpMethod::Patch));
    assert_eq!(method_from_upper("PATCHES"), None);
}

#[test]
fn unsupported_method_is_rejected() {
    let result = prepare_request(spec("FETCH")).unwrap_err();
    assert_eq!(result.name, "probe");
    assert_eq!(result.url, "http://localhost:8080/items");
    assert_eq!(result.method, "FETCH");
    assert_eq!(result.status_code, None);
    assert_eq!(result.status_text, None);
    assert!(!result.success);
    assert_eq!(result.response_time_ns, 0);
    assert_eq!(result.response_body, None);
    assert_eq!(result.error.as_deref(), Some("Unsupported method: FETCH"));
    assert!(result.error.unwrap().starts_with("Unsupported method:"));
}

#[test]
fn unsupported_method_keeps_its_spelling() {
    let result = prepare_request(spec("head")).unwrap_err();
    assert_eq!(result.method, "head");
    assert_eq!(result.error.as_deref(), Some("Unsupported method: head"));
}

#[test]
fn body_and_form_together_are_rejected() {
    let mut s = spec("POST");
    s.body = Some(json("{\"a\":1}"));
    s.form = Some(pairs(&[("a", "1")]));
    let result = prepare_request(s).unwrap_err();
    assert_eq!(
        result.error.as_deref(),
        Some("Cannot use 'body' and 'form' fields simultaneously.")
    );
    assert!(!result.success);
    assert_eq!(result.status_code, None);
    assert_eq!(result.response_time_ns, 0);
    assert_eq!(result.name, "probe");
}

#[test]
fn unknown_method_is_reported_before_body_and_form() {
    let mut s = spec("TRACE");
    s.body = Some(json("1"));
    s.form = Some(pairs(&[]));
    let result = prepare_request(s).unwrap_err();
    assert_eq!(result.error.as_deref(), Some("Unsupported method: TRACE"));
}

#[test]
fn missing_name_becomes_unnamed() {
    let mut s = spec("BREW");
    s.name = None;
    let result = prepare_request(s).unwrap_err();
    assert_eq!(result.name, "Unnamed");
    assert_eq!(name_or_default(None), "Unnamed");
    assert_eq!(name_or_default(Some("x".to_string())), "x");
}

#[test]
fn plain_get_is_prepared() {
    let request = prepare_request(spec("get")).unwrap();
    assert_eq!(request.name, "probe");
    assert_eq!(request.url, "http://localhost:8080/items");
    assert_eq!(request.method_text, "get");
    assert_eq!(request.verb, HttpMethod::Get);
    assert_eq!(request.headers, None);
    assert_eq!(request.params, None);
    assert!(matches!(request.payload, Payload::Empty));
}

#[test]
fn body_becomes_a_json_payload() {
    let mut s = spec("POST");
    s.body = Some(json("{\"k\":[1,2,3]}"));
    let request = prepare_request(s).unwrap();
    match request.payload {
        Payload::Json(value) => assert_eq!(value, json("{\"k\":[1,2,3]}")),
        other => panic!("unexpected payload {:?}", other),
    }
}

#[test]
fn form_becomes_a_form_payload() {
    let mut s = spec("PUT");
    s.form = Some(pairs(&[("a", "1"), ("b", "two words")]));
    let request = prepare_request(s).unwrap();
    match request.payload {
        Payload::Form(fields) => assert_eq!(fields, pairs(&[("a", "1"), ("b", "two words")])),
        other => panic!("unexpected payload {:?}", other),
    }
}

#[test]
fn params_pass_through() {
    let mut s = spec("GET");
    s.params = Some(pairs(&[("q", "a b"), ("page", "2")]));
    let request = prepare_request(s).unwrap();
    assert_eq!(request.params, Some(pairs(&[("q", "a b"), ("page", "2")])));
}

#[test]
fn invalid_headers_are_dropped() {
    let mut s = spec("GET");
    s.headers = Some(pairs(&[
        ("Accept", "application/json"),
        ("Bad Name", "x"),
        ("X-Token", "line\nbreak"),
        ("", "empty"),
        ("X-Ok", "fine"),
    ]));
    let request = prepare_request(s).unwrap();
    assert_eq!(
        request.headers,
        Some(pairs(&[("Accept", "application/json"), ("X-Ok", "fine")]))
    );
}

#[test]
fn empty_header_list_stays_a_list() {
    let mut s = spec("GET");
    s.headers = Some(pairs(&[]));
    let request = prepare_request(s).unwrap();
    assert_eq!(request.headers, Some(pairs(&[])));
}

#[test]
fn keep_valid_headers_keeps_order() {
    let kept = keep_valid_headers(&pairs(&[("b", "2"), ("a:", "x"), ("a", "1"), ("c", "\u{7f}")]));
    assert_eq!(kept, pairs(&[("b", "2"), ("a", "1")]));
}

#[test]
fn header_name_rules() {
    assert!(header_is_valid("Content-Type", "text/plain"));
    assert!(header_is_valid("x-custom_1.2", ""));
    assert!(header_is_valid("!#$%&'*+-.^_`|~", "v"));
    assert!(!header_is_valid("", "v"));
    assert!(!header_is_valid("with space", "v"));
    assert!(!header_is_valid("colon:", "v"));
    assert!(!header_is_valid("caf\u{e9}", "v"));
    assert!(!header_is_valid("a(b)", "v"));
    assert!(header_is_valid(&"a".repeat(65535), "v"));
    assert!(!header_is_valid(&"a".repeat(65536), "v"));
}

#[test]
fn header_value_rules() {
    assert!(header_is_valid("a", "tab\tinside"));
    assert!(header_is_valid("a", " ~"));
    assert!(header_is_valid("a", "caf\u{e9}"));
    assert!(!header_is_valid("a", "new\nline"));
    assert!(!header_is_valid("a", "cr\r"));
    assert!(!header_is_valid("a", "nul\0"));
    assert!(!header_is_valid("a", "del\u{7f}"));
    assert!(!header_is_valid("a", "esc\u{1b}"));
}

#[test]
fn kept_headers_bring_no_name_in_twice() {
    let given = pairs(&[
        ("Accept", "a"),
        ("accept", "b"),
        ("X One", "dropped"),
        ("X-Two", "line\nbreak"),
        ("X-Three", "c"),
    ]);
    let kept = keep_valid_headers(&given);
    assert_eq!(kept, pairs(&[("Accept", "a"), ("accept", "b"), ("X-Three", "c")]));
    for (i, (name, _)) in kept.iter().enumerate() {
        assert!(kept.iter().skip(i + 1).all(|(other, _)| other != name));
    }
}
