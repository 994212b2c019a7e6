use orm::text::{chars_of, decimal, ends_with, join_with, same, split_on, starts_with, trim};

#[test]
fn trim_removes_white_space_at_both_ends() {
    assert_eq!(trim("  device-1\n"), "device-1");
    assert_eq!(trim("\t a b \r\n"), "a b");
    assert_eq!(trim("\u{a0}x\u{2003}"), "x");
}

#[test]
fn trim_of_blank_text_is_empty() {
    assert_eq!(trim(""), "");
    assert_eq!(trim(" \n\t"), "");
}

#[test]
fn trim_keeps_inner_white_space_and_other_characters() {
    assert_eq!(trim("1.2.3"), "1.2.3");
    assert_eq!(trim("_x_"), "_x_");
}

#[test]
fn split_on_yields_the_pieces_between_separators() {
    assert_eq!(split_on("/bar/manifest.yaml", '/'), vec!["", "bar", "manifest.yaml"]);
    assert_eq!(split_on("a//b/", '/'), vec!["a", "", "b", ""]);
}

#[test]
fn split_on_without_separator_is_one_piece() {
    assert_eq!(split_on("", '/'), vec![""]);
    assert_eq!(split_on("abc", '/'), vec!["abc"]);
}

#[test]
fn join_with_undoes_split_on() {
    for text in ["", "/", "a/b", "/a//b/", "no separator", "é/ü"] {
        assert_eq!(join_with(&split_on(text, '/'), "/"), text);
    }
}

#[test]
fn join_with_puts_the_separator_between_pieces_only() {
    let pieces = vec!["a".to_string(), "b".to_string(), "c".to_string()];
    assert_eq!(join_with(&pieces, ", "), "a, b, c");
    assert_eq!(join_with(&vec!["a".to_string()], ", "), "a");
    assert_eq!(join_with(&Vec::new(), ", "), "");
}

#[test]
fn starts_with_compares_characters() {
    assert!(starts_with("app-2024.tar.gz", "app"));
    assert!(starts_with("app", "app"));
    assert!(starts_with("app", ""));
    assert!(!starts_with("ap", "app"));
    assert!(!starts_with("xapp", "app"));
}

#[test]
fn ends_with_compares_characters() {
    assert!(ends_with("app-2024.tar.gz", ".tar.gz"));
    assert!(ends_with(".tar.gz", ".tar.gz"));
    assert!(ends_with("x", ""));
    assert!(!ends_with("tar.gz", ".tar.gz"));
    assert!(!ends_with("app.tar.gz.part", ".tar.gz"));
}

#[test]
fn same_is_equality_of_texts() {
    assert!(same("gateway", "gateway"));
    assert!(!same("gateway", "sensor"));
    assert!(!same("gateway", "gateway "));
}

#[test]
fn chars_of_lists_the_characters() {
    assert_eq!(chars_of("aé/"), vec!['a', 'é', '/']);
    assert_eq!(chars_of(""), Vec::<char>::new());
}

#[test]
fn split_on_pieces_hold_no_separator() {
    for text in ["", "/", "a/b", "/a//b/", "//", "x/y/z/"] {
        let pieces = split_on(text, '/');
        assert!(!pieces.is_empty());
        assert!(pieces.iter().all(|p| !p.contains('/')));
        assert_eq!(pieces.len(), text.matches('/').count() + 1);
    }
}

#[test]
fn trim_takes_exactly_the_white_space_code_points_for_white_space() {
    let listed = |n: u32| {
        (0x09..=0x0d).contains(&n)
            || (0x2000..=0x200a).contains(&n)
            || [0x20, 0x85, 0xa0, 0x1680, 0x2028, 0x2029, 0x202f, 0x205f, 0x3000].contains(&n)
    };
    let mut buffer = String::new();
    for n in 0..=0x10ffffu32 {
        if let Some(c) = char::from_u32(n) {
            buffer.clear();
            buffer.push(c);
            assert_eq!(trim(&buffer).is_empty(), listed(n), "U+{:04X}", n);
        }
    }
}

#[test]
fn trim_removes_a_trailing_line_feed() {
    assert_eq!(trim("1.2.3\n"), "1.2.3");
    assert_eq!(trim("1.2.3\r\n"), "1.2.3");
}

#[test]
fn decimal_writes_numbers_without_leading_zeros() {
    for n in [0u64, 7, 9, 10, 11, 99, 100, 200, 404, 65535, 1_000_000, u64::MAX] {
        assert_eq!(decimal(n), n.to_string());
    }
}
