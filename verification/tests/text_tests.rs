use chatter::text::{
    byte_length, chars_of, contains, decimal_string, find_from, is_control, is_whitespace, join,
    lowercase_chars, replace_all, split_lines, split_words, trim, CharClass,
};

fn text(v: &[char]) -> String {
    v.iter().collect()
}

const SAMPLES: [&str; 16] = [
    "",
    "a",
    "a\nb\nc",
    "a\nb\nc\n",
    "\n",
    "\n\n",
    "a\r\nb\r\n",
    "a\rb",
    "a\r",
    "a\r\r\nb",
    "  padded  ",
    "\t tabs\u{a0}and\u{2003}spaces \n",
    "AAA",
    "ÄÖÜ ß İstanbul ΣΑΣ",
    "one two  three\tfour\nfive",
    "\u{1}\u{7f}\u{9f}bin",
];

#[test]
fn contains_finds_a_part() {
    let hay = chars_of("hello world");
    assert!(contains(&hay, &chars_of("lo w")));
    assert!(contains(&hay, &chars_of("")));
    assert!(contains(&hay, &chars_of("hello world")));
    assert!(!contains(&hay, &chars_of("low")));
    assert!(!contains(&hay, &chars_of("hello world!")));
    assert!(contains(&chars_of(""), &chars_of("")));
}

#[test]
fn find_gives_the_first_place() {
    let hay = chars_of("abcabc");
    assert_eq!(find_from(&hay, &chars_of("bc"), 0), Some(1));
    assert_eq!(find_from(&hay, &chars_of("bc"), 2), Some(4));
    assert_eq!(find_from(&hay, &chars_of("bc"), 5), None);
    assert_eq!(find_from(&hay, &chars_of(""), 6), Some(6));
    assert_eq!(find_from(&hay, &chars_of(""), 7), None);
}

#[test]
fn lines_are_those_of_the_standard_library() {
    for s in SAMPLES {
        let ours: Vec<String> = split_lines(&chars_of(s)).iter().map(|l| text(l)).collect();
        let theirs: Vec<String> = s.lines().map(|l| l.to_string()).collect();
        assert_eq!(ours, theirs, "lines of {:?}", s);
    }
}

#[test]
fn words_are_those_of_the_standard_library() {
    for s in SAMPLES {
        let ours: Vec<String> = split_words(&chars_of(s)).iter().map(|l| text(l)).collect();
        let theirs: Vec<String> = s.split_whitespace().map(|l| l.to_string()).collect();
        assert_eq!(ours, theirs, "words of {:?}", s);
    }
}

#[test]
fn trimming_is_that_of_the_standard_library() {
    for s in SAMPLES {
        assert_eq!(text(&trim(&chars_of(s), CharClass::Whitespace)), s.trim(), "trim of {:?}", s);
    }
    let quoted = "\"'it's'\"";
    assert_eq!(
        text(&trim(&chars_of(quoted), CharClass::Quote)),
        quoted.trim_matches(|c| c == '"' || c == '\'')
    );
    assert_eq!(text(&trim(&chars_of("\"\""), CharClass::Quote)), "");
}

#[test]
fn replacing_is_that_of_the_standard_library() {
    let pairs = [("A", "B"), ("AA", "x"), ("", "-"), ("\n", "\r\n"), ("a", ""), ("zz", "y"), ("ab", "abab")];
    for s in SAMPLES {
        for (from, to) in pairs {
            assert_eq!(
                text(&replace_all(&chars_of(s), &chars_of(from), &chars_of(to))),
                s.replace(from, to),
                "replace {:?} by {:?} in {:?}",
                from,
                to,
                s
            );
        }
    }
    assert_eq!(text(&replace_all(&chars_of("aaa"), &chars_of("aa"), &chars_of("b"))), "ba");
}

#[test]
fn lowercase_is_that_of_the_standard_library() {
    for s in SAMPLES {
        assert_eq!(text(&lowercase_chars(&chars_of(s))), s.to_lowercase());
    }
    assert_eq!(text(&lowercase_chars(&chars_of("MiXeD"))), "mixed");
}

#[test]
fn character_classes_are_those_of_the_standard_library() {
    for n in 0..0x3100u32 {
        if let Some(c) = char::from_u32(n) {
            assert_eq!(is_control(c), c.is_control(), "control {:x}", n);
            assert_eq!(is_whitespace(c), c.is_whitespace(), "white space {:x}", n);
        }
    }
}

#[test]
fn joining_puts_the_separator_between() {
    let parts = vec![chars_of("a"), chars_of(""), chars_of("c")];
    assert_eq!(text(&join(&parts, &chars_of(", "))), "a, , c");
    assert_eq!(text(&join(&Vec::new(), &chars_of(", "))), "");
    assert_eq!(text(&join(&vec![chars_of("only")], &chars_of(", "))), "only");
}

#[test]
fn numbers_are_written_in_decimal() {
    assert_eq!(decimal_string(0), "0");
    assert_eq!(decimal_string(7), "7");
    assert_eq!(decimal_string(10), "10");
    assert_eq!(decimal_string(1025), "1025");
    assert_eq!(decimal_string(u128::MAX), u128::MAX.to_string());
}

#[test]
fn lengths_are_counted_in_bytes() {
    assert_eq!(byte_length(""), 0);
    assert_eq!(byte_length("abc"), 3);
    assert_eq!(byte_length("é€😀"), 9);
}

/// Texts made of a few characters that matter to lines, words and
/// replacing, in an order that a fixed rule spreads well.
fn generated(count: usize) -> Vec<String> {
    let alphabet = ['a', 'A', ' ', '\n', '\r', '\t', '.', 'é', '\u{a0}', 'b'];
    let mut state: u64 = 0x2545F4914F6CDD1D;
    let mut out = Vec::new();
    for _ in 0..count {
        state ^= state << 13;
        state ^= state >> 7;
        state ^= state << 17;
        let len = (state % 9) as usize;
        let mut s = String::new();
        let mut bits = state >> 8;
        for _ in 0..len {
            s.push(alphabet[(bits % alphabet.len() as u64) as usize]);
            bits /= alphabet.len() as u64;
        }
        out.push(s);
    }
    out
}

#[test]
fn generated_texts_split_as_in_the_standard_library() {
    for s in generated(3000) {
        let chars = chars_of(&s);
        let lines: Vec<String> = split_lines(&chars).iter().map(|l| text(l)).collect();
        assert_eq!(lines, s.lines().map(|l| l.to_string()).collect::<Vec<_>>(), "lines of {:?}", s);
        let words: Vec<String> = split_words(&chars).iter().map(|l| text(l)).collect();
        assert_eq!(
            words,
            s.split_whitespace().map(|l| l.to_string()).collect::<Vec<_>>(),
            "words of {:?}",
            s
        );
        assert_eq!(text(&trim(&chars, CharClass::Whitespace)), s.trim(), "trim of {:?}", s);
        assert_eq!(text(&lowercase_chars(&chars)), s.to_lowercase());
        assert_eq!(byte_length(&s), s.len());
    }
}

#[test]
fn generated_texts_are_replaced_as_in_the_standard_library() {
    let texts = generated(400);
    let patterns = ["a", "aa", " ", "\n", "a.", "", "é", "ab"];
    for s in &texts {
        for from in patterns {
            for to in ["", "x", "aa"] {
                assert_eq!(
                    text(&replace_all(&chars_of(s), &chars_of(from), &chars_of(to))),
                    s.replace(from, to),
                    "replace {:?} by {:?} in {:?}",
                    from,
                    to,
                    s
                );
                assert_eq!(contains(&chars_of(s), &chars_of(from)), s.contains(from));
            }
        }
    }
}
