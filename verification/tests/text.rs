use aether::text::{
    ascii_lowercase, characters, find_line, parse_number, push_decimal, spells, trim,
    trim_suffixes, white_space,
};

const SAMPLES: [&str; 14] = [
    "",
    " ",
    "x",
    " x ",
    "\u{a0}\u{3000}a b\u{2003}\t",
    "\u{200b}a",
    "+5",
    "-5",
    "0012",
    "18446744073709551615",
    "18446744073709551616",
    "99999999999999999999",
    "1e3",
    "\u{661}",
];

#[test]
fn white_space_is_that_of_unicode() {
    for code in 0..0x11_0000u32 {
        if let Some(c) = char::from_u32(code) {
            assert_eq!(white_space(c), c.is_whitespace());
        }
    }
}

#[test]
fn trimming_takes_white_space_off_both_ends() {
    for sample in SAMPLES {
        assert_eq!(trim(sample), sample.trim());
        assert_eq!(trim(trim(sample)), trim(sample));
    }
    assert_eq!(trim("\u{a0}\u{3000}a b\u{2003}\t"), "a b");
}

#[test]
fn numbers_are_read_or_refused() {
    for sample in SAMPLES {
        assert_eq!(parse_number(sample), sample.parse::<u64>().ok());
    }
    assert_eq!(parse_number("0012"), Some(12));
    assert_eq!(parse_number("++1"), None);
    assert_eq!(parse_number("18446744073709551616"), None);
}

#[test]
fn decimals_read_back() {
    for n in [0, 7, 10, 99, 100, 1234567890, u64::MAX] {
        let mut out = "n=".to_string();
        push_decimal(&mut out, n);
        assert_eq!(out, format!("n={n}"));
        assert_eq!(parse_number(&out[2..]), Some(n));
    }
}

#[test]
fn lower_case_is_that_of_ascii() {
    let lower: String = ascii_lowercase("AZaz[@ \u{c9}\u{212a}").into_iter().collect();
    assert_eq!(lower, "azaz[@ \u{c9}\u{212a}");
    assert!(spells(&characters("low"), "low"));
    assert!(!spells(&characters("low"), "lo"));
    assert!(!spells(&characters("low"), "lot"));
}

#[test]
fn lines_are_found_by_their_beginning() {
    assert_eq!(find_line("a: 1\nb: 2\nb: 3", "b:"), Some(" 2"));
    assert_eq!(find_line("a: 1\r\nb: 2\r\n", "b:"), Some(" 2"));
    assert_eq!(find_line("b: 2\r", "b:"), Some(" 2\r"));
    assert_eq!(find_line("ab: 2\n\n", "b:"), None);
    assert_eq!(find_line("b", "b:"), None);
    assert_eq!(find_line("", "b:"), None);
    assert_eq!(find_line("", ""), None);
    assert_eq!(find_line("\u{e9}\nb:\u{e9}\u{e8}", "b:"), Some("\u{e9}\u{e8}"));
}

#[test]
fn suffixes_come_off_as_often_as_they_stand() {
    assert_eq!(trim_suffixes("12 kB", "kB"), "12 ");
    assert_eq!(trim_suffixes("12kBkB", "kB"), "12");
    assert_eq!(trim_suffixes("kB", "kB"), "");
    assert_eq!(trim_suffixes("B", "kB"), "B");
    assert_eq!(trim_suffixes("12", ""), "12");
}
