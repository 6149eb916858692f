use mycelia::command::exit_outcome;
use mycelia::paths::join;
use mycelia::text::{contains_text, list_contains, push_decimal, replace_text, same_text, starts_with};

#[test]
fn decimal_text() {
    for (n, expected) in [(0u64, "0"), (7, "7"), (10, "10"), (12345, "12345"), (u64::MAX, "18446744073709551615")] {
        let mut s = String::from("n=");
        push_decimal(&mut s, n);
        assert_eq!(s, format!("n={}", expected));
    }
}

#[test]
fn replace_removes_every_occurrence() {
    assert_eq!(replace_text("release/1.2.3", "release/", ""), "1.2.3");
    assert_eq!(replace_text("v1.0.0-dev", "v", ""), "1.0.0-de");
    assert_eq!(replace_text("aaa", "aa", "b"), "ba");
    assert_eq!(replace_text("xyz", "q", "r"), "xyz");
    assert_eq!(replace_text("__VERSION__ and __VERSION__", "__VERSION__", "1.2.3"), "1.2.3 and 1.2.3");
}

#[test]
fn replace_matches_std() {
    for (s, p, r) in [("release/release/x", "release/", ""), ("ababab", "aba", "-"), ("", "a", "b"), ("é-é", "é", "e")] {
        assert_eq!(replace_text(s, p, r), s.replace(p, r));
    }
}

#[test]
fn searching_text() {
    assert!(contains_text("On branch main\nnothing to commit, working tree clean\n", "working tree clean"));
    assert!(!contains_text("Changes not staged", "working tree clean"));
    assert!(contains_text("abc", ""));
    assert!(starts_with("release/1.0.0", "release/"));
    assert!(!starts_with("rel", "release/"));
    assert!(same_text("abc", "abc"));
    assert!(!same_text("abc", "abd"));
    assert!(!same_text("abc", "ab"));
    let list = vec!["a".to_string(), "release/1.0.0".to_string()];
    assert!(list_contains(&list, "release/1.0.0"));
    assert!(!list_contains(&list, "release/2.0.0"));
}

#[test]
fn joining_paths() {
    assert_eq!(join("/repo", "target"), "/repo/target");
    assert_eq!(join("/repo/", "target"), "/repo/target");
    assert_eq!(join("", "target"), "target");
    assert_eq!(join("/repo", "/abs"), "/abs");
    assert_eq!(join("/repo", "components/game.wasm"), "/repo/components/game.wasm");
    for (a, b) in [("/repo", "target"), ("/repo/", "x/y"), ("", "z"), ("/a", "/b")] {
        assert_eq!(join(a, b), std::path::Path::new(a).join(b).to_str().unwrap());
    }
}

#[test]
fn exit_codes() {
    assert_eq!(exit_outcome(Some(0)), Ok(()));
    assert_eq!(exit_outcome(None), Ok(()));
    assert_eq!(exit_outcome(Some(1)), Err(1));
    assert_eq!(exit_outcome(Some(128)), Err(128));
    assert_eq!(exit_outcome(Some(-1)), Err(-1));
}
