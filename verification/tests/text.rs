use npipe_web::string_map::StringMap;
use npipe_web::text::{
    ends_with_char, eq_ignore_ascii_case, i64_to_string, join_strings, str_eq, u64_to_string,
};

#[test]
fn decimal_numbers() {
    for n in [0u64, 1, 9, 10, 11, 99, 100, 401, 10086, 65535, u32::MAX as u64, u64::MAX] {
        assert_eq!(u64_to_string(n), n.to_string());
    }
    assert_eq!(u64_to_string(10086), "10086");
    for n in [0i64, -1, 1, -9, -10, 12345, -12345, i32::MIN as i64, i64::MAX, i64::MIN] {
        assert_eq!(i64_to_string(n), n.to_string());
    }
    assert_eq!(i64_to_string(-7), "-7");
    assert_eq!(i64_to_string(i64::MIN), "-9223372036854775808");
}

#[test]
fn joining() {
    let parts = |v: &[&str]| v.iter().map(|s| s.to_string()).collect::<Vec<_>>();
    assert_eq!(join_strings(&parts(&[]), "; "), "");
    assert_eq!(join_strings(&parts(&["a"]), "; "), "a");
    assert_eq!(join_strings(&parts(&["a", "b"]), "; "), "a; b");
    assert_eq!(join_strings(&parts(&["a", "", "c"]), ","), "a,,c");
    assert_eq!(join_strings(&parts(&["", ""]), "-"), "-");
    assert_eq!(join_strings(&parts(&["x", "y", "z"]), ""), "xyz");
}

#[test]
fn comparing() {
    assert!(str_eq("", ""));
    assert!(str_eq("abc", "abc"));
    assert!(!str_eq("abc", "abd"));
    assert!(!str_eq("abc", "ab"));
    assert!(eq_ignore_ascii_case("Set-Cookie", "sET-cOOKIE"));
    assert!(eq_ignore_ascii_case("", ""));
    assert!(eq_ignore_ascii_case("az@[`{", "AZ@[`{"));
    assert!(!eq_ignore_ascii_case("@", "`"));
    assert!(!eq_ignore_ascii_case("[", "{"));
    assert!(!eq_ignore_ascii_case("a", "ab"));
    assert!(!eq_ignore_ascii_case("\u{e9}", "\u{c9}"));
    assert!(eq_ignore_ascii_case("\u{e9}X", "\u{e9}x"));
    for (a, b) in [("k", "\u{212a}"), ("ss", "\u{df}"), ("I", "i"), ("i", "\u{130}")] {
        assert_eq!(eq_ignore_ascii_case(a, b), a.eq_ignore_ascii_case(b));
    }
    assert!(ends_with_char("a/", '/'));
    assert!(ends_with_char("/", '/'));
    assert!(!ends_with_char("", '/'));
    assert!(!ends_with_char("/a", '/'));
    assert!(ends_with_char("caf\u{e9}", '\u{e9}'));
}

#[test]
fn string_map_keeps_one_value_per_key_in_order_of_arrival() {
    let mut map: StringMap<u32> = StringMap::new();
    assert_eq!(map.len(), 0);
    assert_eq!(map.get("a"), None);
    assert!(!map.contains_key("a"));
    map.insert("a".to_string(), 1);
    map.insert("b".to_string(), 2);
    map.insert("c".to_string(), 3);
    map.insert("a".to_string(), 10);
    assert_eq!(map.len(), 3);
    assert_eq!(map.get("a"), Some(&10));
    assert_eq!(map.get("b"), Some(&2));
    assert_eq!(map.position("a"), Some(0));
    assert_eq!(map.position("c"), Some(2));
    assert_eq!(map.position("d"), None);
    assert_eq!((map.key_at(1).as_str(), *map.value_at(1)), ("b", 2));
    map.set_value_at(1, 20);
    *map.value_at_mut(2) += 30;
    assert_eq!((map.get("b"), map.get("c")), (Some(&20), Some(&33)));
    map.remove("a");
    assert_eq!(map.len(), 2);
    assert_eq!(map.get("a"), None);
    assert_eq!(map.position("b"), Some(0));
    map.remove("zzz");
    assert_eq!(map.len(), 2);
    map.clear();
    assert_eq!(map.len(), 0);
    assert!(!map.contains_key("b"));
}
