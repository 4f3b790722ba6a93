use http_batch::template::{lookup_binding, substitute_env_vars, weave_replacements};

fn env(pairs: &[(&str, &str)]) -> Vec<(String, String)> {
    pairs.iter().map(|(k, v)| (k.to_string(), v.to_string())).collect()
}

#[test]
fn bound_placeholder_is_replaced() {
    let out = substitute_env_vars("{{FOO}}", &env(&[("FOO", "bar")])).unwrap();
    assert_eq!(out, "bar");
}

#[test]
fn unbound_placeholder_stays() {
    let out = substitute_env_vars("{{FOO}}", &env(&[])).unwrap();
    assert_eq!(out, "{{FOO}}");
}

#[test]
fn text_without_placeholders_is_unchanged() {
    let text = "[{\"url\": \"http://localhost/a\", \"method\": \"GET\"}]";
    let out = substitute_env_vars(text, &env(&[("FOO", "bar")])).unwrap();
    assert_eq!(out, text);
}

#[test]
fn substitution_is_idempotent_once_resolved() {
    let bindings = env(&[("HOST", "example.org"), ("TOKEN", "abc")]);
    let once = substitute_env_vars("https://{{HOST}}/v1?t={{TOKEN}}", &bindings).unwrap();
    assert_eq!(once, "https://example.org/v1?t=abc");
    let twice = substitute_env_vars(&once, &bindings).unwrap();
    assert_eq!(twice, once);
}

#[test]
fn placeholders_inside_json_strings() {
    let bindings = env(&[("BASE", "http://api.test"), ("KEY", "s3cr3t")]);
    let text = "[{\"url\":\"{{BASE}}/users\",\"method\":\"GET\",\"headers\":{\"X-Key\":\"{{KEY}}\"}}]";
    let out = substitute_env_vars(text, &bindings).unwrap();
    assert_eq!(
        out,
        "[{\"url\":\"http://api.test/users\",\"method\":\"GET\",\"headers\":{\"X-Key\":\"s3cr3t\"}}]"
    );
}

#[test]
fn mixed_bound_and_unbound() {
    let out = substitute_env_vars("a{{X}}b{{Y}}c{{X}}", &env(&[("X", "1")])).unwrap();
    assert_eq!(out, "a1b{{Y}}c1");
}

#[test]
fn adjacent_placeholders() {
    let out = substitute_env_vars("{{A}}{{B}}", &env(&[("A", "x"), ("B", "y")])).unwrap();
    assert_eq!(out, "xy");
}

#[test]
fn empty_name_is_no_placeholder() {
    let out = substitute_env_vars("{{}} and {{ A }}", &env(&[("A", "x")])).unwrap();
    assert_eq!(out, "{{}} and {{ A }}");
}

#[test]
fn name_may_hold_digits_and_underscores() {
    let out = substitute_env_vars("{{API_KEY_2}}", &env(&[("API_KEY_2", "k")])).unwrap();
    assert_eq!(out, "k");
}

#[test]
fn name_may_hold_unicode_word_characters() {
    let out = substitute_env_vars("<{{clé}}>", &env(&[("clé", "v")])).unwrap();
    assert_eq!(out, "<v>");
}

#[test]
fn extra_braces_around_placeholder() {
    let out = substitute_env_vars("{{{FOO}}}", &env(&[("FOO", "bar")])).unwrap();
    assert_eq!(out, "{bar}");
}

#[test]
fn value_is_not_resolved_again() {
    let out = substitute_env_vars("{{A}}", &env(&[("A", "{{B}}"), ("B", "z")])).unwrap();
    assert_eq!(out, "{{B}}");
}

#[test]
fn first_binding_of_a_name_wins() {
    let bindings = env(&[("A", "first"), ("A", "second")]);
    assert_eq!(lookup_binding(&bindings, "A").map(|s| s.as_str()), Some("first"));
    assert_eq!(lookup_binding(&bindings, "B"), None);
}

#[test]
fn empty_text() {
    let out = substitute_env_vars("", &env(&[("A", "x")])).unwrap();
    assert_eq!(out, "");
}

#[test]
fn weave_puts_pieces_and_fills_in_turn() {
    let pieces = vec!["a".to_string(), "b".to_string(), "c".to_string()];
    let found = vec![
        ("{{X}}".to_string(), Some("X".to_string())),
        ("{{Y}}".to_string(), Some("Y".to_string())),
    ];
    let out = weave_replacements(&pieces, &found, &env(&[("Y", "2")]));
    assert_eq!(out, "a{{X}}b2c");
}

#[test]
fn weave_keeps_a_match_without_group() {
    let pieces = vec!["<".to_string(), ">".to_string()];
    let found = vec![("??".to_string(), None)];
    let out = weave_replacements(&pieces, &found, &env(&[("??", "x")]));
    assert_eq!(out, "<??>");
}
