use voxlinuxd::text::{
    char_is_white_space, chars_of, concat2, concat3, decimal, str_contains, str_eq, str_is_blank,
    str_lines, str_split_whitespace, str_starts_with,
};

#[test]
fn decimal_of_small_and_large_numbers() {
    assert_eq!(decimal(0), "0");
    assert_eq!(decimal(7), "7");
    assert_eq!(decimal(10), "10");
    assert_eq!(decimal(99), "99");
    assert_eq!(decimal(100), "100");
    assert_eq!(decimal(1_700_000_000), "1700000000");
    assert_eq!(decimal(u64::MAX), "18446744073709551615");
}

#[test]
fn decimal_agrees_with_the_standard_formatting() {
    let mut n: u64 = 1;
    for _ in 0..64 {
        assert_eq!(decimal(n), n.to_string());
        assert_eq!(decimal(n - 1), (n - 1).to_string());
        n = n.wrapping_mul(2);
    }
    for n in 0..2000u64 {
        assert_eq!(decimal(n), n.to_string());
    }
}

#[test]
fn str_eq_compares_characters() {
    assert!(str_eq("", ""));
    assert!(str_eq("abc", "abc"));
    assert!(!str_eq("abc", "abd"));
    assert!(!str_eq("abc", "ab"));
    assert!(!str_eq("ab", "abc"));
    assert!(!str_eq("", "a"));
    assert!(str_eq("\u{25cf} x", "\u{25cf} x"));
    assert!(!str_eq("\u{25cf}", "\u{25cb}"));
    assert!(!str_eq("e\u{301}", "\u{e9}"));
}

#[test]
fn concatenation() {
    assert_eq!(concat2("ab", "cd"), "abcd");
    assert_eq!(concat2("", ""), "");
    assert_eq!(concat3("a", "", "c"), "ac");
    assert_eq!(concat3("x-", "y", "-z"), "x-y-z");
}

fn samples() -> Vec<&'static str> {
    vec![
        "",
        "a",
        "ab",
        "abc",
        "abcabc",
        "bca",
        "dbus.service",
        "systemd-logind.service",
        "getty@tty1.service",
        "getty@",
        "\u{e9}",
        "\u{e9}t\u{e9}",
        "t\u{e9}",
        "\u{25cf} getty@tty1.service",
        "\u{25cf}",
        "\u{1f600}x\u{1f600}",
        "x\u{1f600}",
        "\u{a9}",
        "\u{c3}",
        "(rw",
        "/dev/sda1 on / type ext4 (rw,relatime)",
    ]
}

#[test]
fn starts_with_agrees_with_the_standard_library() {
    for s in samples() {
        for p in samples() {
            assert_eq!(str_starts_with(s, p), s.starts_with(p));
        }
    }
}

#[test]
fn contains_agrees_with_the_standard_library() {
    for s in samples() {
        for p in samples() {
            assert_eq!(str_contains(s, p), s.contains(p));
        }
    }
}

#[test]
fn starts_with_and_contains_on_chosen_values() {
    assert!(str_starts_with("getty@tty1.service", "getty@"));
    assert!(!str_starts_with("xgetty@tty1.service", "getty@"));
    assert!(str_starts_with("abc", ""));
    assert!(str_starts_with("", ""));
    assert!(!str_starts_with("", "a"));
    assert!(str_contains("org.freedesktop.dbus", "dbus"));
    assert!(str_contains("dbus", "dbus"));
    assert!(!str_contains("dbu", "dbus"));
    assert!(str_contains("", ""));
    assert!(str_contains("abc", ""));
    assert!(!str_contains("\u{e9}", "\u{a9}"));
    assert!(str_contains("a\u{e9}b", "\u{e9}b"));
}

#[test]
fn white_space_agrees_with_the_standard_library_on_every_character() {
    for code in 0..=0x10ffffu32 {
        if let Some(c) = char::from_u32(code) {
            assert_eq!(char_is_white_space(c), c.is_whitespace());
        }
    }
}

fn pieces() -> Vec<&'static str> {
    vec!["", "a", "bc", " ", "\t", "\n", "\r", "\r\n", "\u{a0}", "\u{3000}", "\u{25cf}", "\u{2028}", "x y"]
}

fn mixtures() -> Vec<String> {
    let mut all = Vec::new();
    for a in pieces() {
        for b in pieces() {
            for c in pieces() {
                for d in pieces() {
                    all.push(format!("{}{}{}{}", a, b, c, d));
                }
            }
        }
    }
    all
}

#[test]
fn lines_agree_with_the_standard_library() {
    for text in mixtures() {
        let expected: Vec<String> = text.lines().map(|l| l.to_string()).collect();
        assert_eq!(str_lines(&text), expected);
    }
}

#[test]
fn words_agree_with_the_standard_library() {
    for text in mixtures() {
        let expected: Vec<String> = text.split_whitespace().map(|w| w.to_string()).collect();
        assert_eq!(str_split_whitespace(&text), expected);
    }
}

#[test]
fn blank_agrees_with_trimming_to_nothing() {
    for text in mixtures() {
        assert_eq!(str_is_blank(&text), text.trim().is_empty());
    }
}

#[test]
fn lines_on_chosen_values() {
    let none: Vec<String> = Vec::new();
    assert_eq!(str_lines(""), none);
    assert_eq!(str_lines("a"), vec!["a"]);
    assert_eq!(str_lines("a\n"), vec!["a"]);
    assert_eq!(str_lines("a\nb"), vec!["a", "b"]);
    assert_eq!(str_lines("a\r\nb\r\n"), vec!["a", "b"]);
    assert_eq!(str_lines("\n"), vec![""]);
    assert_eq!(str_lines("\n\n"), vec!["", ""]);
    assert_eq!(str_lines("a\n\nb"), vec!["a", "", "b"]);
    assert_eq!(str_lines("a\rb\n"), vec!["a\rb"]);
    assert_eq!(str_lines("\r\n"), vec![""]);
    assert_eq!(str_lines("a\r\r\n"), vec!["a\r"]);
}

#[test]
fn words_on_chosen_values() {
    let none: Vec<String> = Vec::new();
    assert_eq!(str_split_whitespace(""), none);
    assert_eq!(str_split_whitespace("   \t\n"), none);
    assert_eq!(str_split_whitespace("a"), vec!["a"]);
    assert_eq!(str_split_whitespace("  a  b\tc\n"), vec!["a", "b", "c"]);
    assert_eq!(
        str_split_whitespace("\u{25cf} getty@tty1.service loaded failed failed Getty on tty1"),
        vec!["\u{25cf}", "getty@tty1.service", "loaded", "failed", "failed", "Getty", "on", "tty1"]
    );
    assert_eq!(str_split_whitespace("a\u{a0}b\u{3000}c"), vec!["a", "b", "c"]);
}

#[test]
fn chars_of_lists_the_characters() {
    assert_eq!(chars_of(""), Vec::<char>::new());
    assert_eq!(chars_of("a\u{e9}\u{1f600}"), vec!['a', '\u{e9}', '\u{1f600}']);
}
