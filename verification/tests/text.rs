use pg_auto_dw::utility::text::{
    chars_of, decimal, parse_u32, replace_all, separate, signed_decimal, str_eq, wrap_each,
};

#[test]
fn texts_compare_by_their_characters() {
    assert!(str_eq("", ""));
    assert!(str_eq("hub_customer", "hub_customer"));
    assert!(!str_eq("hub_customer", "hub_customers"));
    assert!(!str_eq("Na", "na"));
    assert!(str_eq("Kundenschlüssel", "Kundenschlüssel"));
    assert!(!str_eq("é", "e"));
}

#[test]
fn characters_are_listed_one_by_one() {
    assert_eq!(chars_of("a“b”"), vec!['a', '“', 'b', '”']);
    assert!(chars_of("").is_empty());
}

#[test]
fn every_occurrence_is_replaced_from_the_left() {
    assert_eq!(replace_all("it's O'Neil's", "'", "''"), "it''s O''Neil''s");
    assert_eq!(replace_all("customer order line", " ", "_"), "customer_order_line");
    assert_eq!(replace_all("aaa", "aa", "b"), "ba");
    assert_eq!(replace_all("aaaa", "aa", "b"), "bb");
    assert_eq!(replace_all("abcabc", "abc", ""), "");
    assert_eq!(replace_all("x{hints}y{hints}", "{hints}", "¡hola!"), "x¡hola!y¡hola!");
    assert_eq!(replace_all("“q” and “r”", "“", "<"), "<q” and <r”");
    assert_eq!(replace_all("abc", "abcd", "x"), "abc");
    assert_eq!(replace_all("abc", "d", "x"), "abc");
    assert_eq!(replace_all("", "a", "x"), "");
}

#[test]
fn empty_pattern_replaces_nothing() {
    assert_eq!(replace_all("abc", "", "x"), "abc");
}

#[test]
fn replacement_agrees_with_the_standard_one() {
    let cases = [
        ("Column No: {column_no}", "{column_no}", "12"),
        ("a''b'c", "'", "''"),
        ("ababab", "aba", "-"),
        ("  two  blanks ", " ", "_"),
        ("ééé", "éé", "e"),
    ];
    for (text, pattern, with) in cases {
        assert_eq!(replace_all(text, pattern, with), text.replace(pattern, with));
    }
}

#[test]
fn numbers_are_written_in_decimal() {
    assert_eq!(decimal(0), "0");
    assert_eq!(decimal(7), "7");
    assert_eq!(decimal(10), "10");
    assert_eq!(decimal(1234567890), "1234567890");
    assert_eq!(decimal(4294967295), "4294967295");
    assert_eq!(decimal(u64::MAX), "18446744073709551615");
    assert_eq!(signed_decimal(0), "0");
    assert_eq!(signed_decimal(42), "42");
    assert_eq!(signed_decimal(-1), "-1");
    assert_eq!(signed_decimal(-2147483648), "-2147483648");
    assert_eq!(signed_decimal(i64::MIN), "-9223372036854775808");
    assert_eq!(signed_decimal(i64::MAX), "9223372036854775807");
}

#[test]
fn numbers_are_read_from_digits_only() {
    assert_eq!(parse_u32("0"), Some(0));
    assert_eq!(parse_u32("12"), Some(12));
    assert_eq!(parse_u32("007"), Some(7));
    assert_eq!(parse_u32("4294967295"), Some(4294967295));
    assert_eq!(parse_u32("4294967296"), None);
    assert_eq!(parse_u32("99999999999999999999999999"), None);
    assert_eq!(parse_u32(""), None);
    assert_eq!(parse_u32("+1"), None);
    assert_eq!(parse_u32("-1"), None);
    assert_eq!(parse_u32("1 "), None);
    assert_eq!(parse_u32("1a"), None);
    assert_eq!(parse_u32("٣"), None);
}

#[test]
fn written_numbers_are_read_back() {
    for n in [0u32, 1, 9, 10, 99, 100, 65535, 4294967295] {
        assert_eq!(parse_u32(&decimal(n as u64)), Some(n));
    }
}

#[test]
fn items_are_wrapped_and_separated() {
    let items = vec!["a".to_string(), "b".to_string(), "c".to_string()];
    assert_eq!(wrap_each(&items, ",\n    ", "_bk"), ",\n    a_bk,\n    b_bk,\n    c_bk");
    assert_eq!(wrap_each(&Vec::new(), "<", ">"), "");
    assert_eq!(separate(&items, ", ", "stg.", "::TEXT"), "stg.a::TEXT, stg.b::TEXT, stg.c::TEXT");
    assert_eq!(separate(&items[..1].to_vec(), ", ", "stg.", "::TEXT"), "stg.a::TEXT");
    assert_eq!(separate(&Vec::new(), ", ", "stg.", "::TEXT"), "");
}
