use http_send::method::parse_method;

#[test]
fn method_tokens_are_read_in_any_case() {
    assert_eq!(parse_method("GET"), Some(reqwest::Method::GET));
    assert_eq!(parse_method("get"), Some(reqwest::Method::GET));
    assert_eq!(parse_method("PoSt"), Some(reqwest::Method::POST));
    assert_eq!(parse_method("delete"), Some(reqwest::Method::DELETE));
    assert_eq!(parse_method("options"), Some(reqwest::Method::OPTIONS));
    assert_eq!(parse_method("patch").unwrap().as_str(), "PATCH");
    assert_eq!(parse_method("purge").unwrap().as_str(), "PURGE");
    assert_eq!(parse_method("m-search").unwrap().as_str(), "M-SEARCH");
}

#[test]
fn method_token_takes_its_characters_only() {
    let accepted = "!*+-.^_`|~0123456789ABCDEFGHIJKLMNOPQRSTUVWXYZabcdefghijklmnopqrstuvwxyz";
    for code in 0u8..128 {
        let c = code as char;
        let token = format!("x{}", c);
        match parse_method(&token) {
            Some(method) => {
                assert!(accepted.contains(c), "{:?}", c);
                assert_eq!(method.as_str(), token.to_ascii_uppercase());
            }
            None => assert!(!accepted.contains(c), "{:?}", c),
        }
    }
    let long = "verylongmethodname-of-more-than-fifteen-characters";
    assert_eq!(parse_method(long).unwrap().as_str(), long.to_ascii_uppercase());
}

#[test]
fn other_tokens_are_no_methods() {
    assert_eq!(parse_method(""), None);
    assert_eq!(parse_method("GET "), None);
    assert_eq!(parse_method("G T"), None);
    assert_eq!(parse_method("g\u{e9}t"), None);
    assert_eq!(parse_method("get\n"), None);
}
