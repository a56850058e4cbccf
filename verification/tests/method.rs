use reverse_proxy::method::Method;

#[test]
fn a_token_is_a_method() {
    let get = Method::from_str("GET").unwrap();
    assert_eq!(get.as_str(), "GET");
}

#[test]
fn case_is_normalised() {
    let lower = Method::from_str("get").unwrap();
    let mixed = Method::from_str("Get").unwrap();
    let upper = Method::from_str("GET").unwrap();
    assert_eq!(lower.as_str(), "GET");
    assert!(lower.same_as(&upper));
    assert!(mixed.same_as(&upper));
    assert_eq!(lower, upper);
}

#[test]
fn different_methods_differ() {
    let get = Method::from_str("GET").unwrap();
    let post = Method::from_str("POST").unwrap();
    assert!(!get.same_as(&post));
    assert_ne!(get, post);
}

#[test]
fn an_extension_token_is_a_method() {
    let purge = Method::from_str("purge").unwrap();
    assert_eq!(purge.as_str(), "PURGE");
    let long = Method::from_str("a-very-long-extension-method").unwrap();
    assert_eq!(long.as_str(), "A-VERY-LONG-EXTENSION-METHOD");
    let marks = Method::from_str("!#$%&'*+-.^_`|~09").unwrap();
    assert_eq!(marks.as_str(), "!#$%&'*+-.^_`|~09");
}

#[test]
fn what_is_no_token_is_no_method() {
    assert!(Method::from_str("").is_none());
    assert!(Method::from_str("G ET").is_none());
    assert!(Method::from_str("GET\n").is_none());
    assert!(Method::from_str("GET/").is_none());
    assert!(Method::from_str("G\u{e9}T").is_none());
    assert!(Method::from_str("(GET)").is_none());
}

#[test]
fn a_clone_is_the_same_method() {
    let put = Method::from_str("put").unwrap();
    let copy = put.clone();
    assert!(copy.same_as(&put));
    assert_eq!(copy.as_str(), "PUT");
}

#[test]
fn a_method_is_made_of_token_characters_only() {
    for code in 0u32..=0x17f {
        let c = char::from_u32(code).unwrap();
        let expected = c.is_ascii_alphanumeric() || "!#$%&'*+-.^_`|~".contains(c);
        let token = format!("X{c}Y");
        let method = Method::from_str(&token);
        assert_eq!(method.is_some(), expected, "{code:#x}");
        if let Some(method) = method {
            assert_eq!(method.as_str(), token.to_ascii_uppercase());
        }
    }
}
