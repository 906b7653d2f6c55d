use hyprdock::text::{concat2, contains, contains_string, replace_all, str_eq};

#[test]
fn substring_search() {
    assert!(contains("org.mozilla.firefox", "firefox"));
    assert!(contains("abc", ""));
    assert!(contains("", ""));
    assert!(!contains("fire", "firefox"));
    assert!(!contains("alacritty", "kitty"));
    assert!(contains("kitty", "kitty"));
}

#[test]
fn replacement_left_to_right() {
    assert_eq!(replace_all("code-url-handler", "-url-handler", ""), "code");
    assert_eq!(replace_all("aaa", "aa", "b"), "ba");
    assert_eq!(replace_all("abcabc", "bc", "X"), "aXaX");
    assert_eq!(replace_all("none", "zz", "y"), "none");
}

#[test]
fn joining_and_comparing() {
    assert_eq!(concat2("a", "bc"), "abc");
    assert!(str_eq("x", "x"));
    assert!(!str_eq("x", "X"));
    let v = vec!["a".to_string(), "b".to_string()];
    assert!(contains_string(&v, "b"));
    assert!(!contains_string(&v, "c"));
}
