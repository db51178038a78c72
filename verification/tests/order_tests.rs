use lint_lang::order::str_lt;

#[test]
fn strings_sort_by_character_codes() {
    assert!(str_lt("a", "b"));
    assert!(str_lt("B", "a"));
    assert!(str_lt("ab", "abc"));
    assert!(!str_lt("abc", "ab"));
    assert!(!str_lt("x", "x"));
    assert!(str_lt("z", "é"));
    assert_eq!(str_lt("é", "z"), "é" < "z");
}
