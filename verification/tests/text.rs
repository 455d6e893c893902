use exec_agent::text::{
    append_decimal_digits, char_is_white_space, decimal_text, ends_with_after_trim,
    same_text, without_trailing,
};

#[test]
fn white_space_covers_the_ascii_blanks() {
    for c in [' ', '\t', '\n', '\u{0B}', '\u{0C}', '\r'] {
        assert!(char_is_white_space(c), "{:?}", c);
    }
}

#[test]
fn white_space_covers_the_unicode_blanks() {
    for c in [
        '\u{85}', '\u{A0}', '\u{1680}', '\u{2000}', '\u{2005}', '\u{200A}', '\u{2028}',
        '\u{2029}', '\u{202F}', '\u{205F}', '\u{3000}',
    ] {
        assert!(char_is_white_space(c), "{:?}", c);
    }
}

#[test]
fn white_space_excludes_its_neighbours() {
    for c in [
        '\u{08}', '\u{0E}', '\u{1F}', '!', '}', 'a', '\u{84}', '\u{86}', '\u{A1}', '\u{180E}',
        '\u{1FFF}', '\u{200B}', '\u{2027}', '\u{202A}', '\u{2060}', '\u{3001}', '\u{FEFF}',
    ] {
        assert!(!char_is_white_space(c), "{:?}", c);
    }
}

#[test]
fn white_space_agrees_with_the_standard_library() {
    let mut n: u32 = 0;
    while n < 0x11_0000 {
        if let Some(c) = char::from_u32(n) {
            assert_eq!(char_is_white_space(c), c.is_whitespace(), "U+{:04X}", n);
        }
        n += 1;
    }
}

#[test]
fn trimmed_text_ends_with_the_last_visible_character() {
    assert!(ends_with_after_trim("{}", '}'));
    assert!(ends_with_after_trim("  {\"a\":1}  \r\n", '}'));
    assert!(ends_with_after_trim("}\u{3000}\u{A0}", '}'));
    assert!(ends_with_after_trim("}", '}'));
    assert!(ends_with_after_trim("é}", '}'));
}

#[test]
fn trimmed_text_does_not_end_with_an_earlier_character() {
    assert!(!ends_with_after_trim("{}x", '}'));
    assert!(!ends_with_after_trim("}]", '}'));
    assert!(!ends_with_after_trim("{\"code\":\"d={}\\nprint(d)\"", '}'));
    assert!(!ends_with_after_trim("}\u{200B}", '}'));
}

#[test]
fn blank_text_ends_with_nothing() {
    assert!(!ends_with_after_trim("", '}'));
    assert!(!ends_with_after_trim("   \n\t", '}'));
    assert!(!ends_with_after_trim("   ", ' '));
    assert!(!ends_with_after_trim("} ", ' '));
}

#[test]
fn ends_with_after_trim_agrees_with_the_standard_library() {
    for s in ["", " ", "}", " } ", "a}b", "}\n", "{}\u{2003}", "x", "}}", "\u{85}}\u{85}"] {
        assert_eq!(ends_with_after_trim(s, '}'), s.trim().ends_with('}'), "{:?}", s);
    }
}

#[test]
fn same_text_compares_every_character() {
    assert!(same_text("", ""));
    assert!(same_text("python", "python"));
    assert!(same_text("héllo", "héllo"));
    assert!(!same_text("python", "Python"));
    assert!(!same_text("python", "python3"));
    assert!(!same_text("python3", "python"));
    assert!(!same_text("", "c"));
    assert!(!same_text("é", "e"));
}

#[test]
fn trailing_suffix_is_removed() {
    assert_eq!(without_trailing("Main.java", ".java"), "Main");
    assert_eq!(without_trailing("pkg.Main.java", ".java"), "pkg.Main");
}

#[test]
fn trailing_suffix_is_removed_repeatedly() {
    assert_eq!(without_trailing("A.java.java", ".java"), "A");
    assert_eq!(without_trailing(".java.java.java", ".java"), "");
    assert_eq!(without_trailing("aaaa", "a"), "");
    assert_eq!(without_trailing("baaa", "a"), "b");
}

#[test]
fn text_without_the_suffix_is_kept() {
    assert_eq!(without_trailing("Main.jav", ".java"), "Main.jav");
    assert_eq!(without_trailing("Main.java.txt", ".java"), "Main.java.txt");
    assert_eq!(without_trailing("java", ".java"), "java");
    assert_eq!(without_trailing("", ".java"), "");
    assert_eq!(without_trailing("Main.JAVA", ".java"), "Main.JAVA");
}

#[test]
fn empty_suffix_removes_nothing() {
    assert_eq!(without_trailing("Main.java", ""), "Main.java");
    assert_eq!(without_trailing("", ""), "");
}

#[test]
fn suffix_removal_counts_characters_not_bytes() {
    assert_eq!(without_trailing("Ünïcödé.java", ".java"), "Ünïcödé");
    assert_eq!(without_trailing("日本語é", "é"), "日本語");
}

#[test]
fn suffix_removal_agrees_with_the_standard_library() {
    for s in ["Main.java", "A.java.java", "x", "", ".java", "a.javab.java", "é.java"] {
        assert_eq!(without_trailing(s, ".java"), s.trim_end_matches(".java"), "{:?}", s);
    }
}

#[test]
fn decimal_digits_are_appended() {
    let mut out = String::from("n=");
    append_decimal_digits(&mut out, 0);
    assert_eq!(out, "n=0");
    append_decimal_digits(&mut out, 4294967295);
    assert_eq!(out, "n=04294967295");
    append_decimal_digits(&mut out, 100);
    assert_eq!(out, "n=04294967295100");
}

#[test]
fn decimal_text_of_small_numbers() {
    assert_eq!(decimal_text(0), "0");
    assert_eq!(decimal_text(7), "7");
    assert_eq!(decimal_text(10), "10");
    assert_eq!(decimal_text(127), "127");
    assert_eq!(decimal_text(-1), "-1");
    assert_eq!(decimal_text(-120), "-120");
}

#[test]
fn decimal_text_of_the_extremes() {
    assert_eq!(decimal_text(i32::MAX), "2147483647");
    assert_eq!(decimal_text(i32::MIN), "-2147483648");
}

#[test]
fn decimal_text_agrees_with_the_standard_library() {
    for v in [0, 1, -1, 9, 10, 99, 100, 101, 255, 256, -255, 1000000, -1000000, 2147483646] {
        assert_eq!(decimal_text(v), v.to_string());
    }
}
