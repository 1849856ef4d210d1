use virtual_io_hub::text::{
    chain, char_is_whitespace, concat2, concat3, eq_ignore_ascii_case, join_with, parse_i32,
    render_bullet_list, split, to_decimal, trim,
};

#[test]
fn concat_joins_in_order() {
    assert_eq!(concat2("ab", "cd"), "abcd");
    assert_eq!(concat2("", ""), "");
    assert_eq!(concat3("a", "", "ção"), "ação");
}

#[test]
fn trim_removes_surrounding_whitespace_only() {
    assert_eq!(trim("  abc  "), "abc");
    assert_eq!(trim("\t\r\n a b \u{3000}"), "a b");
    assert_eq!(trim("abc"), "abc");
    assert_eq!(trim(""), "");
    assert_eq!(trim(" \n\t "), "");
    assert_eq!(trim("\u{a0}código\u{2028}"), "código");
}

#[test]
fn trim_agrees_with_std_on_every_whitespace_character() {
    let mut code: u32 = 0;
    while code < 0x3100 {
        if let Some(c) = char::from_u32(code) {
            assert_eq!(char_is_whitespace(c), c.is_whitespace(), "U+{:04X}", code);
            let padded = format!("{}x y{}", c, c);
            assert_eq!(trim(&padded), padded.trim(), "U+{:04X}", code);
        }
        code += 1;
    }
}

#[test]
fn case_is_ignored_for_ascii_letters_only() {
    assert!(eq_ignore_ascii_case("verify", "verify"));
    assert!(eq_ignore_ascii_case("VeRiFy", "verify"));
    assert!(eq_ignore_ascii_case("VERIFY", "verify"));
    assert!(!eq_ignore_ascii_case("verify ", "verify"));
    assert!(!eq_ignore_ascii_case("verif", "verify"));
    assert!(!eq_ignore_ascii_case("verifz", "verify"));
    assert!(eq_ignore_ascii_case("", ""));
    assert!(!eq_ignore_ascii_case("É", "é"));
    assert!(!eq_ignore_ascii_case("@", "`"));
    assert!(!eq_ignore_ascii_case("[", "{"));
}

#[test]
fn decimal_of_numbers() {
    assert_eq!(to_decimal(0), "0");
    assert_eq!(to_decimal(7), "7");
    assert_eq!(to_decimal(10), "10");
    assert_eq!(to_decimal(8080), "8080");
    assert_eq!(to_decimal(65535), "65535");
    assert_eq!(to_decimal(u64::MAX), "18446744073709551615");
}

#[test]
fn parse_i32_accepts_what_std_accepts() {
    assert_eq!(parse_i32("0"), Some(0));
    assert_eq!(parse_i32("-1"), Some(-1));
    assert_eq!(parse_i32("+17"), Some(17));
    assert_eq!(parse_i32("007"), Some(7));
    assert_eq!(parse_i32("-0"), Some(0));
    assert_eq!(parse_i32("2147483647"), Some(i32::MAX));
    assert_eq!(parse_i32("-2147483648"), Some(i32::MIN));
    assert_eq!(parse_i32("2147483648"), None);
    assert_eq!(parse_i32("-2147483649"), None);
    assert_eq!(parse_i32("99999999999999999999999"), None);
    assert_eq!(parse_i32(""), None);
    assert_eq!(parse_i32("-"), None);
    assert_eq!(parse_i32("+"), None);
    assert_eq!(parse_i32(" 1"), None);
    assert_eq!(parse_i32("1 "), None);
    assert_eq!(parse_i32("1_000"), None);
    assert_eq!(parse_i32("12a"), None);
    assert_eq!(parse_i32("--1"), None);
    assert_eq!(parse_i32("١"), None);
    let samples = [
        "5", "-5", "+5", "00", "+-1", "2147483650", "-2147483647", "abc", "1.5", "0x10", "４",
    ];
    for s in samples {
        assert_eq!(parse_i32(s), s.parse::<i32>().ok(), "{:?}", s);
    }
}

#[test]
fn split_keeps_empty_pieces() {
    assert_eq!(split("a;b;c", ';'), vec!["a", "b", "c"]);
    assert_eq!(split("", ';'), vec![""]);
    assert_eq!(split(";", ';'), vec!["", ""]);
    assert_eq!(split("a;;b;", ';'), vec!["a", "", "b", ""]);
    assert_eq!(split("no separator", ';'), vec!["no separator"]);
    assert_eq!(split("C:\\Windows;C:\\Ferramentas ção", ';'), vec!["C:\\Windows", "C:\\Ferramentas ção"]);
    let samples = ["", ";", "a", ";a", "a;", "a;b", ";;", "á;é;í"];
    for s in samples {
        let expected: Vec<String> = s.split(';').map(|p| p.to_string()).collect();
        assert_eq!(split(s, ';'), expected, "{:?}", s);
    }
}

#[test]
fn bullet_list_has_one_line_per_item() {
    assert_eq!(render_bullet_list(&vec![]), "");
    assert_eq!(render_bullet_list(&vec!["a".to_string()]), "  - a");
    assert_eq!(
        render_bullet_list(&vec!["a".to_string(), "b".to_string(), "c".to_string()]),
        "  - a\n  - b\n  - c"
    );
}

#[test]
fn texts_are_joined_with_a_separator_between_them() {
    assert_eq!(join_with(&vec![], "; "), "");
    assert_eq!(join_with(&vec!["a".to_string()], "; "), "a");
    assert_eq!(
        join_with(&vec!["a".to_string(), "".to_string(), "c".to_string()], "; "),
        "a; ; c"
    );
    assert_eq!(join_with(&vec!["a".to_string(), "b".to_string()], ""), "ab");
}

#[test]
fn lists_are_chained_in_order() {
    let a = vec!["x".to_string(), "y".to_string()];
    let b = vec!["z".to_string()];
    assert_eq!(chain(&a, &b), vec!["x".to_string(), "y".to_string(), "z".to_string()]);
    assert_eq!(chain(&vec![], &b), b);
    assert_eq!(chain(&a, &vec![]), a);
}
