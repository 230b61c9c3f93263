use greenverify::text::{chars_of, contains_any, contains_str, count_contained, same_text, to_strings};

#[test]
fn substring_search() {
    assert!(contains_str("renewable energy", "energy"));
    assert!(contains_str("abc", ""));
    assert!(!contains_str("", "a"));
    assert!(!contains_str("ab", "abc"));
    assert!(contains_str("aab", "ab"));
    assert!(contains_str("héllo wörld", "ö"));
    assert!(!contains_str("Energy", "energy"));
}

#[test]
fn phrase_lists() {
    let ps = to_strings(&["solar", "wind", "hydro"]);
    assert_eq!(ps, vec!["solar".to_string(), "wind".to_string(), "hydro".to_string()]);
    assert_eq!(count_contained("solar and wind", &ps), 2);
    assert!(contains_any("hydro dam", &ps));
    assert!(!contains_any("coal", &ps));
    assert_eq!(chars_of("añb"), vec!['a', 'ñ', 'b']);
    assert!(same_text("none", "none"));
    assert!(!same_text("none", "None"));
}
