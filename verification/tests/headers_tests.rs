use api_tester::headers::{
    collapse_headers, encodable_headers, has_header, is_encodable, same_char, same_name,
    unify_headers,
};

fn pair(name: &str, value: &str) -> (String, String) {
    (name.to_string(), value.to_string())
}

fn raw(name: &str, value: Option<&str>) -> (String, Option<String>) {
    (name.to_string(), value.map(|text| text.to_string()))
}

#[test]
fn ordinary_headers_are_encodable() {
    assert!(is_encodable("accept", "application/json"));
    assert!(is_encodable("X-Request-Id", "abc 123"));
    assert!(is_encodable("a", ""));
    assert!(is_encodable("!#$%&'*+-.^_`|~09azAZ", "v"));
}

#[test]
fn names_must_be_non_empty_tokens() {
    assert!(!is_encodable("", "v"));
    assert!(!is_encodable("bad name", "v"));
    assert!(!is_encodable("bad:name", "v"));
    assert!(!is_encodable("bad\"name", "v"));
    assert!(!is_encodable("bad(name)", "v"));
    assert!(!is_encodable("bad/name", "v"));
    assert!(!is_encodable("bad@name", "v"));
    assert!(!is_encodable("bad[name]", "v"));
    assert!(!is_encodable("bad{name}", "v"));
    assert!(!is_encodable("caf\u{e9}", "v"));
    assert!(!is_encodable("tab\tname", "v"));
}

#[test]
fn names_have_a_longest_length() {
    let longest = "a".repeat(65535);
    let too_long = "a".repeat(65536);
    assert!(is_encodable(&longest, "v"));
    assert!(!is_encodable(&too_long, "v"));
    let past_the_short_path = "b".repeat(65);
    assert!(is_encodable(&past_the_short_path, "v"));
    let long_with_a_space = format!("{} x", "b".repeat(70));
    assert!(!is_encodable(&long_with_a_space, "v"));
}

#[test]
fn values_may_not_hold_control_characters() {
    assert!(is_encodable("x", "tab\tis fine"));
    assert!(is_encodable("x", " "));
    assert!(is_encodable("x", "~"));
    assert!(!is_encodable("x", "line\nbreak"));
    assert!(!is_encodable("x", "carriage\rreturn"));
    assert!(!is_encodable("x", "nul\u{0}"));
    assert!(!is_encodable("x", "unit\u{1f}separator"));
    assert!(!is_encodable("x", "del\u{7f}"));
}

#[test]
fn values_may_hold_characters_beyond_ascii() {
    assert!(is_encodable("x", "caf\u{e9}"));
    assert!(is_encodable("x", "\u{80}"));
    assert!(is_encodable("x", "\u{4e2d}\u{6587}"));
}

#[test]
fn bad_headers_are_dropped_and_the_rest_kept_in_order() {
    let headers = vec![
        pair("accept", "application/json"),
        pair("bad name", "v"),
        pair("x-trace", "line\nbreak"),
        pair("", "empty"),
        pair("X-Token", "abc"),
        pair("accept", "text/plain"),
    ];
    let kept = encodable_headers(&headers);
    assert_eq!(
        kept,
        vec![pair("accept", "application/json"), pair("X-Token", "abc"), pair("accept", "text/plain")]
    );
}

#[test]
fn nothing_in_nothing_out() {
    assert_eq!(encodable_headers(&Vec::new()), Vec::new());
    assert_eq!(collapse_headers(&Vec::new()), Vec::new());
}

#[test]
fn last_value_wins_when_a_name_comes_twice() {
    let wire = vec![
        raw("set-cookie", Some("a=1")),
        raw("content-type", Some("application/json")),
        raw("set-cookie", Some("b=2")),
        raw("server", Some("echo")),
        raw("set-cookie", Some("c=3")),
    ];
    let flat = collapse_headers(&wire);
    assert_eq!(
        flat,
        vec![pair("content-type", "application/json"), pair("server", "echo"), pair("set-cookie", "c=3")]
    );
}

#[test]
fn unreadable_values_become_empty() {
    let wire = vec![raw("x-binary", None), raw("x-text", Some("ok"))];
    assert_eq!(collapse_headers(&wire), vec![pair("x-binary", ""), pair("x-text", "ok")]);
    let wire = vec![raw("x", Some("first")), raw("x", None)];
    assert_eq!(collapse_headers(&wire), vec![pair("x", "")]);
}

#[test]
fn names_that_differ_in_case_are_different_names() {
    let wire = vec![raw("etag", Some("1")), raw("ETag", Some("2"))];
    assert_eq!(collapse_headers(&wire), vec![pair("etag", "1"), pair("ETag", "2")]);
}

#[test]
fn header_names_are_the_same_whatever_their_case() {
    assert!(same_name("content-type", "Content-Type"));
    assert!(same_name("CONTENT-TYPE", "content-type"));
    assert!(same_name("x-id", "x-id"));
    assert!(same_name("", ""));
    assert!(!same_name("content-type", "content_type"));
    assert!(!same_name("content-type", "content-typ"));
    assert!(!same_name("content-type", "content-types"));
    assert!(!same_name("x-1", "x-q"));
}

#[test]
fn only_ascii_letters_lose_their_case() {
    assert!(same_char('a', 'A'));
    assert!(same_char('Z', 'z'));
    assert!(same_char('-', '-'));
    assert!(!same_char('@', '`'));
    assert!(!same_char('[', '{'));
    assert!(!same_char('0', 'P'));
    assert!(!same_char('\u{e9}', '\u{c9}'));
    assert!(!same_name("caf\u{e9}", "CAF\u{c9}"));
}

#[test]
fn a_list_is_searched_for_a_name_case_aside() {
    let headers = vec![pair("Accept", "text/plain"), pair("X-Trace", "1")];
    assert!(has_header(&headers, "accept"));
    assert!(has_header(&headers, "x-trace"));
    assert!(!has_header(&headers, "content-type"));
    assert!(!has_header(&Vec::new(), "accept"));
}

#[test]
fn one_header_per_name_whatever_the_case() {
    let headers = vec![
        pair("Accept", "a"),
        pair("x-id", "1"),
        pair("accept", "b"),
        pair("X-ID", "2"),
        pair("x_id", "3"),
    ];
    assert_eq!(
        unify_headers(&headers),
        vec![pair("accept", "b"), pair("X-ID", "2"), pair("x_id", "3")]
    );
    assert_eq!(unify_headers(&Vec::new()), Vec::new());
    let already = vec![pair("a", "1"), pair("b", "2")];
    assert_eq!(unify_headers(&already), already);
}

#[test]
fn a_unified_list_fills_a_header_map_header_for_header() {
    let headers = vec![pair("Accept", "a"), pair("accept", "b"), pair("x-id", "1"), pair("ACCEPT", "c")];
    let unified = unify_headers(&encodable_headers(&headers));
    let mut map = reqwest::header::HeaderMap::new();
    for (name, value) in &unified {
        let name = reqwest::header::HeaderName::from_bytes(name.as_bytes()).unwrap();
        let value = reqwest::header::HeaderValue::from_str(value).unwrap();
        assert!(map.insert(name, value).is_none());
    }
    assert_eq!(map.len(), unified.len());
    let mut filled = reqwest::header::HeaderMap::new();
    for (name, value) in &headers {
        let name = reqwest::header::HeaderName::from_bytes(name.as_bytes()).unwrap();
        filled.insert(name, reqwest::header::HeaderValue::from_str(value).unwrap());
    }
    assert_eq!(map, filled);
}
