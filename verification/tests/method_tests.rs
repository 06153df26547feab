use api_tester::method::Method;

#[test]
fn supported_methods_are_read_from_their_names() {
    assert_eq!(Method::from_name("GET"), Some(Method::Get));
    assert_eq!(Method::from_name("POST"), Some(Method::Post));
    assert_eq!(Method::from_name("PUT"), Some(Method::Put));
    assert_eq!(Method::from_name("DELETE"), Some(Method::Delete));
    assert_eq!(Method::from_name("PATCH"), Some(Method::Patch));
}

#[test]
fn from_name_wants_upper_case() {
    assert_eq!(Method::from_name("get"), None);
    assert_eq!(Method::from_name("Get"), None);
    assert_eq!(Method::from_name(""), None);
    assert_eq!(Method::from_name("GET "), None);
}

#[test]
fn parse_does_not_mind_case() {
    assert_eq!(Method::parse("GET"), Some(Method::Get));
    assert_eq!(Method::parse("get"), Some(Method::Get));
    assert_eq!(Method::parse("Post"), Some(Method::Post));
    assert_eq!(Method::parse("pUt"), Some(Method::Put));
    assert_eq!(Method::parse("delete"), Some(Method::Delete));
    assert_eq!(Method::parse("patch"), Some(Method::Patch));
}

#[test]
fn other_methods_are_not_supported() {
    assert_eq!(Method::parse("HEAD"), None);
    assert_eq!(Method::parse("options"), None);
    assert_eq!(Method::parse("TRACE"), None);
    assert_eq!(Method::parse(""), None);
    assert_eq!(Method::parse(" GET"), None);
    assert_eq!(Method::parse("GETS"), None);
}

#[test]
fn names_round_trip() {
    for method in [Method::Get, Method::Post, Method::Put, Method::Delete, Method::Patch] {
        assert_eq!(Method::from_name(method.as_str()), Some(method));
        assert_eq!(Method::parse(&method.as_str().to_lowercase()), Some(method));
    }
    assert_eq!(Method::Delete.as_str(), "DELETE");
}
