use tmux_knight::text::{
    append_decimal, char_is_white_space, chars_of, same_text, strip_quotes, trim,
};

fn decimal(value: i32) -> String {
    let mut out = String::new();
    append_decimal(&mut out, value);
    out
}

#[test]
fn white_space_is_the_unicode_property() {
    let spaces = [
        '\t', '\n', '\u{b}', '\u{c}', '\r', ' ', '\u{85}', '\u{a0}', '\u{1680}', '\u{2000}',
        '\u{2005}', '\u{200a}', '\u{2028}', '\u{2029}', '\u{202f}', '\u{205f}', '\u{3000}',
    ];
    for c in spaces {
        assert!(char_is_white_space(c), "{:?}", c);
    }
    let others = ['a', '\'', '0', '\u{8}', '\u{e}', '\u{1f}', '\u{200b}', '\u{180e}', '\u{feff}'];
    for c in others {
        assert!(!char_is_white_space(c), "{:?}", c);
    }
}

#[test]
fn white_space_agrees_with_std_on_every_char() {
    let mut code: u32 = 0;
    while code <= 0x10ffff {
        if let Some(c) = char::from_u32(code) {
            assert_eq!(char_is_white_space(c), c.is_whitespace(), "{:#x}", code);
        }
        code += 1;
    }
}

#[test]
fn trim_drops_both_ends() {
    assert_eq!(trim("  a b \n"), "a b");
    assert_eq!(trim("a"), "a");
    assert_eq!(trim(""), "");
    assert_eq!(trim(" \t\n"), "");
    assert_eq!(trim("\u{2003}é\u{a0}"), "é");
    assert_eq!(trim("x  "), "x");
    assert_eq!(trim("  x"), "x");
}

#[test]
fn trim_agrees_with_std() {
    let samples = ["", " ", "a", " a", "a ", " a b ", "\n\n'default'\n", "\u{3000}x\u{3000}y\u{3000}"];
    for s in samples {
        assert_eq!(trim(s), s.trim());
    }
}

#[test]
fn strip_quotes_drops_one_layer() {
    assert_eq!(strip_quotes("'a'"), "a");
    assert_eq!(strip_quotes("''a''"), "'a'");
    assert_eq!(strip_quotes("'a"), "a");
    assert_eq!(strip_quotes("a'"), "a");
    assert_eq!(strip_quotes("a"), "a");
    assert_eq!(strip_quotes(""), "");
    assert_eq!(strip_quotes("'"), "");
    assert_eq!(strip_quotes("''"), "");
    assert_eq!(strip_quotes("'''"), "'");
    assert_eq!(strip_quotes("a'b"), "a'b");
    assert_eq!(strip_quotes(" 'a' "), " 'a' ");
    assert_eq!(strip_quotes("'é'"), "é");
}

#[test]
fn chars_come_out_in_order() {
    assert_eq!(chars_of("aé'"), vec!['a', 'é', '\'']);
    assert_eq!(chars_of(""), Vec::<char>::new());
}

#[test]
fn same_text_compares_characters() {
    assert!(same_text("default", "default"));
    assert!(same_text("", ""));
    assert!(!same_text("default", "defaulT"));
    assert!(!same_text("default", "default "));
    assert!(!same_text("", "a"));
}

#[test]
fn decimal_numerals() {
    assert_eq!(decimal(0), "0");
    assert_eq!(decimal(1), "1");
    assert_eq!(decimal(9), "9");
    assert_eq!(decimal(10), "10");
    assert_eq!(decimal(127), "127");
    assert_eq!(decimal(-1), "-1");
    assert_eq!(decimal(-17), "-17");
    assert_eq!(decimal(1_000_000), "1000000");
    assert_eq!(decimal(i32::MAX), "2147483647");
    assert_eq!(decimal(i32::MIN), "-2147483648");
}

#[test]
fn decimal_is_appended() {
    let mut out = String::from("code ");
    append_decimal(&mut out, 42);
    assert_eq!(out, "code 42");
}
