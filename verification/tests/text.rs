use direnv_status::text::{
    is_whitespace, lines, str_eq, strip_prefix, to_chars, to_string, trim,
};

fn split(text: &str) -> Vec<String> {
    let chars = to_chars(text);
    lines(&chars).iter().map(|line| to_string(line)).collect()
}

fn trimmed(text: &str) -> String {
    let chars = to_chars(text);
    to_string(trim(&chars))
}

const SAMPLES: [&str; 22] = [
    "",
    "\n",
    "\r",
    "\r\n",
    "a",
    "a\n",
    "a\nb",
    "a\r\nb",
    "a\rb",
    "a\r",
    "a\r\r\n",
    "\n\n",
    "\n\r\n\r",
    "foo\nbar\n\r\nbaz\r",
    "  x  ",
    "\t x y \u{a0}",
    "\u{2003}wide\u{3000}",
    " \u{200b} ",
    "Found RC path /a/b/.envrc\nFound RC allowed 0\n",
    "no newline at all",
    "tr\u{e8}s bien\n\u{1f600}\n",
    "\u{85}next\u{2028}line\u{2029}",
];

#[test]
fn chars_round_trip() {
    for s in SAMPLES {
        let chars = to_chars(s);
        assert_eq!(chars, s.chars().collect::<Vec<char>>());
        assert_eq!(to_string(&chars), s);
    }
}

#[test]
fn lines_agree_with_std() {
    for s in SAMPLES {
        let want: Vec<String> = s.lines().map(String::from).collect();
        assert_eq!(split(s), want, "lines of {:?}", s);
    }
}

#[test]
fn lines_of_given_texts() {
    assert_eq!(split(""), Vec::<String>::new());
    assert_eq!(split("\n"), vec![String::new()]);
    assert_eq!(split("a\r\nb\r"), vec!["a".to_string(), "b\r".to_string()]);
    assert_eq!(split("a\n\nb\n"), vec!["a".to_string(), String::new(), "b".to_string()]);
}

#[test]
fn trim_agrees_with_std() {
    for s in SAMPLES {
        assert_eq!(trimmed(s), s.trim(), "trim of {:?}", s);
    }
}

#[test]
fn trim_of_given_texts() {
    assert_eq!(trimmed("  /home/u/.envrc \t"), "/home/u/.envrc");
    assert_eq!(trimmed(" \n\t "), "");
    assert_eq!(trimmed("a b"), "a b");
    assert_eq!(trimmed("\u{200b}x"), "\u{200b}x");
}

#[test]
fn whitespace_agrees_with_std_on_every_char() {
    for n in 0..=0x10FFFFu32 {
        if let Some(c) = char::from_u32(n) {
            assert_eq!(is_whitespace(c), c.is_whitespace(), "U+{:04X}", n);
        }
    }
}

#[test]
fn strip_prefix_agrees_with_std() {
    let prefixes = ["", "a", "Found RC path", "Found RC allowed", "\u{e9}"];
    let texts = [
        "",
        "a",
        "ab",
        "Found RC path /x",
        "Found RC pat",
        "Found RC allowed true",
        "found RC path /x",
        " Found RC path /x",
        "\u{e9}t\u{e9}",
    ];
    for p in prefixes {
        for t in texts {
            let pc = to_chars(p);
            let tc = to_chars(t);
            let got = strip_prefix(&tc, &pc).map(to_string);
            let want = t.strip_prefix(p).map(String::from);
            assert_eq!(got, want, "{:?} without {:?}", t, p);
        }
    }
}

#[test]
fn str_eq_compares_characters() {
    for a in SAMPLES {
        for b in SAMPLES {
            assert_eq!(str_eq(a, b), a == b);
        }
    }
    assert!(str_eq("DIRENV_FILE", "DIRENV_FILE"));
    assert!(!str_eq("DIRENV_FILE", "DIRENV_FILES"));
    assert!(!str_eq("e\u{301}", "\u{e9}"));
}
