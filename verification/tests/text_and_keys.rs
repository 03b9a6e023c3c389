use student_service::keys::{student_key, students_list_key, student_list_pattern, uuid_string};
use student_service::text::{i64_text, u64_text, parse_unsigned_text, parse_bool_text, contains_text, same_text, join_texts};

#[test]
fn decimal_text_of_integers() {
    assert_eq!(i64_text(0), "0");
    assert_eq!(i64_text(42), "42");
    assert_eq!(i64_text(-7), "-7");
    assert_eq!(i64_text(i64::MIN), i64::MIN.to_string());
    assert_eq!(i64_text(i64::MAX), i64::MAX.to_string());
    assert_eq!(u64_text(u64::MAX), u64::MAX.to_string());
}

#[test]
fn unsigned_parsing_follows_str_parse() {
    assert_eq!(parse_unsigned_text("8080", 65535), Some(8080));
    assert_eq!(parse_unsigned_text("+15", 65535), Some(15));
    assert_eq!(parse_unsigned_text("0007", 65535), Some(7));
    assert_eq!(parse_unsigned_text("65535", 65535), Some(65535));
    assert_eq!(parse_unsigned_text("65536", 65535), None);
    assert_eq!(parse_unsigned_text("", 65535), None);
    assert_eq!(parse_unsigned_text("+", 65535), None);
    assert_eq!(parse_unsigned_text("-1", 65535), None);
    assert_eq!(parse_unsigned_text("12a", 65535), None);
    assert_eq!(parse_unsigned_text(" 1", 65535), None);
    assert_eq!(parse_unsigned_text("18446744073709551615", u64::MAX), Some(u64::MAX));
    assert_eq!(parse_unsigned_text("18446744073709551616", u64::MAX), None);
    for s in ["0", "1", "+9", "99999", "4294967295", "4294967296", "x", "++1"] {
        assert_eq!(parse_unsigned_text(s, u32::MAX as u64), s.parse::<u32>().ok().map(|v| v as u64), "{}", s);
    }
}

#[test]
fn decimal_text_reads_back() {
    for n in [0u64, 1, 9, 10, 99, 100, 12345, u64::MAX] {
        assert_eq!(parse_unsigned_text(&u64_text(n), u64::MAX), Some(n));
    }
}

#[test]
fn bool_parsing_follows_str_parse() {
    assert_eq!(parse_bool_text("true"), Some(true));
    assert_eq!(parse_bool_text("false"), Some(false));
    assert_eq!(parse_bool_text("TRUE"), None);
    assert_eq!(parse_bool_text("1"), None);
    assert_eq!(parse_bool_text(""), None);
}

#[test]
fn substring_and_equality() {
    assert!(contains_text("not_found: student not found", "not_found"));
    assert!(contains_text("db error: not_found", "not_found"));
    assert!(!contains_text("connection refused", "not_found"));
    assert!(contains_text("abc", ""));
    assert!(!contains_text("ab", "abc"));
    assert!(same_text("héllo", "héllo"));
    assert!(!same_text("a", "b"));
    assert!(!same_text("a", "ab"));
}

#[test]
fn joining_texts() {
    assert_eq!(join_texts(&vec![], ", "), "");
    assert_eq!(join_texts(&vec!["A".to_string()], ", "), "A");
    assert_eq!(join_texts(&vec!["A".to_string(), "B".to_string(), "C".to_string()], ", "), "A, B, C");
}

#[test]
fn student_and_list_keys() {
    assert_eq!(student_key("abc"), "student:abc");
    assert_eq!(students_list_key(1, 20), "students:list:1:20");
    assert_eq!(students_list_key(-3, 0), "students:list:-3:0");
    assert_eq!(student_list_pattern(), "students:list:*");
}

#[test]
fn list_keys_are_distinct_and_cleared_by_the_pattern() {
    let mut seen = std::collections::HashSet::new();
    for p in [-11i64, -1, 0, 1, 2, 11, 12, 112] {
        for q in [1i64, 2, 12, 21, 100] {
            let k = students_list_key(p, q);
            assert!(k.starts_with("students:list:"));
            assert!(seen.insert(k));
        }
    }
    let prefix = student_list_pattern();
    let prefix = &prefix[..prefix.len() - 1];
    assert!(!student_key("students:list:1:1").starts_with(prefix));
    assert_ne!(student_key("a"), student_key("b"));
}

#[test]
fn uuid_text_is_lowercase_hyphenated() {
    assert_eq!(uuid_string(0), "00000000-0000-0000-0000-000000000000");
    assert_eq!(
        uuid_string(0xa1a2a3a4b1b2c1c2d1d2d3d4d5d6d7d8),
        "a1a2a3a4-b1b2-c1c2-d1d2-d3d4d5d6d7d8"
    );
    assert_eq!(uuid_string(u128::MAX), "ffffffff-ffff-ffff-ffff-ffffffffffff");
}
