use dstcluster::dstserver::parse_version;
use dstcluster::text::clean_lines_of;
use dstcluster::text::is_whitespace;
use dstcluster::text::to_chars;

fn std_clean_lines(text: &str) -> Vec<String> {
    text.lines().map(|s| s.trim().to_string()).filter(|s| !s.is_empty()).collect()
}

const SAMPLES: [&str; 24] = [
    "",
    "\n",
    "\n\n\n",
    "alice",
    "alice\n",
    "alice\n\n  bob  \n",
    "alice\r\nbob\r\n",
    "alice\r\n\r\nbob",
    "  \t alice \t \n\u{3000}bob\u{a0}\n\u{2003}\n",
    "a\rb\nc\r",
    "\r",
    "\r\n",
    " \n \n a b \n",
    "x\n\ny\n\n\nz",
    "KU_abc123\nKU_abc123\n",
    "\u{85}name\u{85}",
    "\u{1680}\u{2028}\u{2029}\u{202f}\u{205f}",
    "tab\tinside stays\n",
    "\u{feff}not white space\n",
    "\u{200b}zero width is kept\u{200b}\n",
    "\u{180e}mongolian separator is kept\n",
    "é\nü \n 日本語 \n",
    "line\u{b}feed\u{c}\n",
    "\n  \n\t\nlast",
];

#[test]
fn is_whitespace_agrees_with_std_on_every_char() {
    let mut n: u32 = 0;
    while n <= 0x10ffff {
        if let Some(c) = char::from_u32(n) {
            assert_eq!(is_whitespace(c), c.is_whitespace(), "code point {:#x}", n);
        }
        n += 1;
    }
}

#[test]
fn is_whitespace_on_named_characters() {
    assert!(is_whitespace(' '));
    assert!(is_whitespace('\t'));
    assert!(is_whitespace('\n'));
    assert!(is_whitespace('\r'));
    assert!(is_whitespace('\u{3000}'));
    assert!(!is_whitespace('a'));
    assert!(!is_whitespace('0'));
    assert!(!is_whitespace('\u{200b}'));
    assert!(!is_whitespace('\u{8}'));
    assert!(!is_whitespace('\u{e}'));
}

#[test]
fn to_chars_gives_each_character_once() {
    assert_eq!(to_chars(""), Vec::<char>::new());
    assert_eq!(to_chars("abc"), vec!['a', 'b', 'c']);
    assert_eq!(to_chars("é日"), vec!['é', '日']);
}

#[test]
fn clean_lines_agrees_with_std() {
    for text in SAMPLES {
        assert_eq!(clean_lines_of(text), std_clean_lines(text), "text {:?}", text);
    }
}

#[test]
fn clean_lines_keeps_order_and_duplicates() {
    assert_eq!(clean_lines_of("b\na\nb\n"), vec!["b", "a", "b"]);
}

#[test]
fn clean_lines_of_blank_text_is_empty() {
    assert_eq!(clean_lines_of(""), Vec::<String>::new());
    assert_eq!(clean_lines_of("\n \n\t\n"), Vec::<String>::new());
}

#[test]
fn clean_lines_entries_are_trimmed_and_not_empty() {
    for text in SAMPLES {
        for line in clean_lines_of(text) {
            assert!(!line.is_empty());
            assert_eq!(line.trim(), line);
            assert!(!line.contains('\n'));
        }
    }
}

#[test]
fn clean_lines_handles_carriage_returns() {
    assert_eq!(clean_lines_of("alice\r\nbob\r\n"), vec!["alice", "bob"]);
}

const NUMBERS: [&str; 28] = [
    "",
    "0",
    "7",
    "42",
    "+42",
    "-42",
    "-0",
    "+",
    "-",
    "++1",
    "+-1",
    "0042",
    "00000000000000000000000000000001",
    "4294967295",
    "4294967296",
    "+4294967295",
    "42949672950",
    "99999999999999999999999999",
    "42 43",
    " 42",
    "42 ",
    "4_2",
    "abc",
    "12a",
    "a12",
    "1.0",
    "0x10",
    "４２",
];

#[test]
fn parse_version_agrees_with_std_on_numbers() {
    for text in NUMBERS {
        assert_eq!(parse_version(text).ok(), text.trim().parse::<u32>().ok(), "text {:?}", text);
    }
}

#[test]
fn parse_version_exact_values() {
    assert_eq!(parse_version("42").ok(), Some(42));
    assert_eq!(parse_version("+42").ok(), Some(42));
    assert_eq!(parse_version("0042").ok(), Some(42));
    assert_eq!(parse_version("0").ok(), Some(0));
    assert_eq!(parse_version("4294967295").ok(), Some(4294967295));
    assert_eq!(parse_version("4294967296").ok(), None);
    assert_eq!(parse_version("").ok(), None);
    assert_eq!(parse_version("+").ok(), None);
    assert_eq!(parse_version("-1").ok(), None);
    assert_eq!(parse_version("42 43").ok(), None);
}

#[test]
fn lines_lose_every_kind_of_white_space_at_their_ends() {
    let spaces = [
        '\t', '\u{b}', '\u{c}', '\r', ' ', '\u{85}', '\u{a0}', '\u{1680}', '\u{2000}', '\u{200a}',
        '\u{2028}', '\u{2029}', '\u{202f}', '\u{205f}', '\u{3000}',
    ];
    for c in spaces {
        let text = format!("{}{}name{}{}\n", c, c, c, c);
        assert_eq!(clean_lines_of(&text), vec!["name"], "white space {:?}", c);
    }
}
