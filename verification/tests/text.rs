use cargo_embed::text::{decimal_text, split_lines};

#[test]
fn numbers_are_written_in_decimal() {
    assert_eq!(decimal_text(0), "0");
    assert_eq!(decimal_text(7), "7");
    assert_eq!(decimal_text(10), "10");
    assert_eq!(decimal_text(1337), "1337");
    assert_eq!(decimal_text(u64::MAX), "18446744073709551615");
}

#[test]
fn written_numbers_read_back() {
    for n in vec![0u64, 9, 10, 99, 100, 4096, 65535, 1_000_000_007] {
        assert_eq!(decimal_text(n).parse::<u64>().unwrap(), n);
    }
}

#[test]
fn texts_split_into_lines() {
    assert_eq!(split_lines(""), Vec::<String>::new());
    assert_eq!(split_lines("one"), vec!["one"]);
    assert_eq!(split_lines("one\n"), vec!["one"]);
    assert_eq!(split_lines("one\ntwo"), vec!["one", "two"]);
    assert_eq!(split_lines("\n\n"), vec!["", ""]);
    assert_eq!(split_lines("foo\nbar\n\r\nbaz\r"), vec!["foo", "bar", "", "baz\r"]);
}

#[test]
fn lines_agree_with_those_of_std() {
    for text in vec!["", "\n", "\r", "\r\n", "a\r\nb", "a\n\nb\n", "\u{e4}\u{f6}\n\u{1f980}\r\n", "x\ry\n"] {
        let expected: Vec<String> = text.lines().map(|line| line.to_string()).collect();
        assert_eq!(split_lines(text), expected);
    }
}

#[test]
fn lines_put_together_give_the_text() {
    for text in vec!["a\nb\nc\n", "\n", "", "only\n", "\u{e9}\n\n"] {
        let mut joined = String::new();
        for line in split_lines(text) {
            assert!(!line.contains('\n'));
            joined.push_str(&line);
            joined.push('\n');
        }
        assert_eq!(joined, text);
    }
}
