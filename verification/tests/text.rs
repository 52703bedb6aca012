use npx_bin_helper::text::{chars_of, join_strs, split_str, starts_with, str_eq, without_strs};

fn strings(v: &[&str]) -> Vec<String> {
    v.iter().map(|s| s.to_string()).collect()
}

#[test]
fn split_like_str_split() {
    for s in ["", ":", "a", "a:b", "::a::", "/usr/bin:/bin"] {
        let expected: Vec<String> = s.split(':').map(String::from).collect();
        assert_eq!(split_str(s, ':'), expected);
    }
}

#[test]
fn join_like_slice_join() {
    assert_eq!(join_strs(&strings(&[]), ":"), "");
    assert_eq!(join_strs(&strings(&["a"]), ":"), "a");
    assert_eq!(join_strs(&strings(&["a", "", "b"]), " "), "a  b");
}

#[test]
fn join_after_split_round_trip() {
    for s in ["", "::", "a:b:c", ":x"] {
        assert_eq!(join_strs(&split_str(s, ':'), ":"), s);
    }
}

#[test]
fn text_predicates() {
    assert!(starts_with("/a/b", "/a"));
    assert!(starts_with("/a", ""));
    assert!(!starts_with("/a", "/a/b"));
    assert!(str_eq("fish", "fish"));
    assert!(!str_eq("fish", "fis"));
    assert_eq!(chars_of("héllo"), vec!['h', 'é', 'l', 'l', 'o']);
}

#[test]
fn without_keeps_order() {
    let r = without_strs(&strings(&["a", "b", "a", "c"]), &strings(&["a"]));
    assert_eq!(r, strings(&["b", "c"]));
}
