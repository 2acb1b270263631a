use muka_taskswitch::text::{chars_match_str, chars_of, contains_chars, remove_spaces, string_of};

#[test]
fn chars_round_trip() {
    let v = chars_of("aé任");
    assert_eq!(v, vec!['a', 'é', '任']);
    assert_eq!(string_of(&v), "aé任");
    assert!(chars_match_str(&v, "aé任"));
    assert!(!chars_match_str(&v, "aé"));
}

#[test]
fn spaces_removed() {
    assert_eq!(remove_spaces(" a b  c "), "abc");
    assert_eq!(remove_spaces("\ta"), "\ta");
}

#[test]
fn substring_search() {
    let hay = chars_of("rust-app.exe");
    assert!(contains_chars(&hay, &chars_of("app")));
    assert!(contains_chars(&hay, &chars_of("")));
    assert!(contains_chars(&hay, &chars_of("rust-app.exe")));
    assert!(!contains_chars(&hay, &chars_of("apx")));
    assert!(!contains_chars(&chars_of(""), &chars_of("a")));
}
