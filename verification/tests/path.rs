use reverse_proxy::path::format_path;

#[test]
fn trailing_separator_is_stripped() {
    assert_eq!(format_path("/api/users/"), "/api/users");
}

#[test]
fn path_without_trailing_separator_is_kept() {
    assert_eq!(format_path("/api/users"), "/api/users");
}

#[test]
fn leading_separator_is_supplied() {
    assert_eq!(format_path("api/users"), "/api/users");
    assert_eq!(format_path("api/users/"), "/api/users");
}

#[test]
fn empty_path_is_the_root() {
    assert_eq!(format_path(""), "/");
}

#[test]
fn root_is_kept() {
    assert_eq!(format_path("/"), "/");
}

#[test]
fn only_one_trailing_separator_goes() {
    assert_eq!(format_path("/a//"), "/a/");
    assert_eq!(format_path("a//"), "/a/");
}

#[test]
fn exactly_one_leading_separator_stays() {
    assert_eq!(format_path("//a"), "/a");
    assert_eq!(format_path("///a/b"), "/a/b");
    assert_eq!(format_path("//"), "/");
    assert_eq!(format_path("///"), "/");
}

#[test]
fn nothing_else_is_changed() {
    assert_eq!(format_path("/API/Users"), "/API/Users");
    assert_eq!(format_path("/a/./b/../c"), "/a/./b/../c");
    assert_eq!(format_path("/a%2Fb"), "/a%2Fb");
    assert_eq!(format_path("/a//b"), "/a//b");
    assert_eq!(format_path("/a b"), "/a b");
}

#[test]
fn characters_beyond_ascii_are_counted_as_characters() {
    assert_eq!(format_path("/caf\u{e9}/"), "/caf\u{e9}");
    assert_eq!(format_path("\u{65e5}\u{672c}/"), "/\u{65e5}\u{672c}");
}

#[test]
fn appending_a_separator_gives_the_same_key() {
    for p in ["", "/x", "x", "/api/users", "//deep/er", "/caf\u{e9}"] {
        let longer = format!("{}/", p);
        assert_eq!(format_path(&longer), format_path(p));
    }
}

#[test]
fn a_key_begins_with_exactly_one_separator() {
    for p in ["", "/", "//", "a", "/a", "//a/", "a/b/"] {
        let key = format_path(p);
        assert!(key.starts_with('/'));
        assert!(!key.starts_with("//"));
    }
}
