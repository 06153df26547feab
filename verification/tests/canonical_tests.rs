use api_tester::canonical::{canonical_headers, place, rank_names, Rank};

fn pair(name: &str, value: &str) -> (String, String) {
    (name.to_string(), value.to_string())
}

#[test]
fn names_rank_byte_by_byte() {
    assert_eq!(rank_names("a", "b"), Rank::Before);
    assert_eq!(rank_names("b", "a"), Rank::After);
    assert_eq!(rank_names("accept", "accept"), Rank::Same);
    assert_eq!(rank_names("", ""), Rank::Same);
    assert_eq!(rank_names("", "a"), Rank::Before);
    assert_eq!(rank_names("a", ""), Rank::After);
    assert_eq!(rank_names("x-a", "x-ab"), Rank::Before);
    assert_eq!(rank_names("x-ab", "x-a"), Rank::After);
    assert_eq!(rank_names("X-a", "x-a"), Rank::Before);
    assert_eq!(rank_names("z", "\u{e9}"), Rank::Before);
    assert_eq!(rank_names("\u{4e2d}", "\u{e9}"), Rank::After);
}

#[test]
fn a_header_is_put_at_its_place() {
    let sorted = vec![pair("b", "2"), pair("d", "4")];
    let a = "a".to_string();
    let c = "c".to_string();
    let d = "d".to_string();
    let e = "e".to_string();
    let v = "new".to_string();
    assert_eq!(place(&sorted, &a, &v), vec![pair("a", "new"), pair("b", "2"), pair("d", "4")]);
    assert_eq!(place(&sorted, &c, &v), vec![pair("b", "2"), pair("c", "new"), pair("d", "4")]);
    assert_eq!(place(&sorted, &e, &v), vec![pair("b", "2"), pair("d", "4"), pair("e", "new")]);
    assert_eq!(place(&sorted, &d, &v), vec![pair("b", "2"), pair("d", "new")]);
    assert_eq!(place(&Vec::new(), &a, &v), vec![pair("a", "new")]);
}

#[test]
fn the_canonical_form_is_ordered_and_holds_each_name_once() {
    let headers = vec![pair("x-b", "1"), pair("accept", "2"), pair("x-b", "3"), pair("X-B", "4"), pair("a", "5")];
    assert_eq!(
        canonical_headers(&headers),
        vec![pair("X-B", "4"), pair("a", "5"), pair("accept", "2"), pair("x-b", "3")]
    );
    assert_eq!(canonical_headers(&Vec::new()), Vec::new());
}

#[test]
fn every_order_of_the_same_headers_has_the_same_canonical_form() {
    let a = pair("accept", "*/*");
    let b = pair("x-id", "7");
    let c = pair("authorization", "Bearer abc");
    let expected = vec![a.clone(), c.clone(), b.clone()];
    let orders = vec![
        vec![a.clone(), b.clone(), c.clone()],
        vec![a.clone(), c.clone(), b.clone()],
        vec![b.clone(), a.clone(), c.clone()],
        vec![b.clone(), c.clone(), a.clone()],
        vec![c.clone(), a.clone(), b.clone()],
        vec![c.clone(), b.clone(), a.clone()],
    ];
    for order in orders {
        assert_eq!(canonical_headers(&order), expected);
    }
}

#[test]
fn the_canonical_form_of_a_canonical_form_is_itself() {
    let headers = vec![pair("b", "1"), pair("a", "2"), pair("b", "3")];
    let once = canonical_headers(&headers);
    assert_eq!(canonical_headers(&once), once);
}
