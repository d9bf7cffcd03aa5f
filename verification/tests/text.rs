use dirsort::text::{chars_of, split_on, string_of, trim_range};

fn pieces(text: &str, sep: char) -> Vec<String> {
    split_on(&chars_of(text), sep).iter().map(|p| p.iter().collect::<String>()).collect()
}

fn trimmed(text: &str) -> String {
    let chars = chars_of(text);
    let (from, to) = trim_range(&chars);
    string_of(&chars, from, to)
}

#[test]
fn chars_round_trip() {
    let chars = chars_of("héllo.TXT");
    assert_eq!(chars.len(), 9);
    assert_eq!(string_of(&chars, 0, chars.len()), "héllo.TXT");
    assert_eq!(string_of(&chars, 6, 9), "TXT");
    assert_eq!(string_of(&chars, 3, 3), "");
}

#[test]
fn split_keeps_empty_pieces() {
    assert_eq!(pieces("txt,log,tmp", ','), vec!["txt", "log", "tmp"]);
    assert_eq!(pieces("", ','), vec![""]);
    assert_eq!(pieces(",", ','), vec!["", ""]);
    assert_eq!(pieces("a,,b,", ','), vec!["a", "", "b", ""]);
    assert_eq!(pieces("no separator", ','), vec!["no separator"]);
}

#[test]
fn split_agrees_with_std() {
    for text in ["a,b", ",a", "a,", ",,", "x", "", " a , b "] {
        let expected: Vec<String> = text.split(',').map(|p| p.to_string()).collect();
        assert_eq!(pieces(text, ','), expected);
    }
    let lines = "one\ntwo\r\n\n# three\n";
    let expected: Vec<String> = lines.split('\n').map(|p| p.to_string()).collect();
    assert_eq!(pieces(lines, '\n'), expected);
}

#[test]
fn trim_removes_whitespace_at_both_ends() {
    assert_eq!(trimmed("  txt \t"), "txt");
    assert_eq!(trimmed("txt"), "txt");
    assert_eq!(trimmed(" a b "), "a b");
    assert_eq!(trimmed("   "), "");
    assert_eq!(trimmed(""), "");
    assert_eq!(trimmed("line\r"), "line");
    assert_eq!(trimmed("\u{a0}wide\u{3000}"), "wide");
}

#[test]
fn trim_agrees_with_std() {
    for text in ["", " ", "a", " a", "a ", "\ta\n", " a  b ", "\r\n", "  .x  "] {
        assert_eq!(trimmed(text), text.trim());
    }
}
