use veilid_news::text::{split_lines, trim};

#[test]
fn trim_removes_surrounding_whitespace() {
    assert_eq!(trim(" foo "), "foo");
    assert_eq!(trim("\t\nfoo bar\r\n"), "foo bar");
    assert_eq!(trim("foo"), "foo");
    assert_eq!(trim("   "), "");
    assert_eq!(trim(""), "");
}

#[test]
fn trim_keeps_inner_whitespace() {
    assert_eq!(trim("  a  b  "), "a  b");
    assert_eq!(trim("a\nb"), "a\nb");
}

#[test]
fn trim_knows_unicode_whitespace() {
    assert_eq!(trim("\u{3000}feed\u{00a0}"), "feed");
    assert_eq!(trim("\u{2028}\u{2029}x\u{1680}"), "x");
    assert_eq!(trim("\u{200b}x"), "\u{200b}x");
}

#[test]
fn trim_agrees_with_std() {
    let samples = [
        "",
        " ",
        "x",
        " x",
        "x ",
        "\u{85}caf\u{e9} \u{4e2d}\u{6587}\t",
        "\r\n https://example.org/feed.xml \r\n",
        " \u{1f600} ",
    ];
    for sample in samples {
        assert_eq!(trim(sample), sample.trim());
        assert_eq!(trim(&trim(sample)), trim(sample));
    }
}

#[test]
fn split_lines_splits_at_line_feeds() {
    assert_eq!(split_lines("a\nb"), vec!["a".to_string(), "b".to_string()]);
    assert_eq!(split_lines("a\n"), vec!["a".to_string(), String::new()]);
    assert_eq!(split_lines(""), vec![String::new()]);
    assert_eq!(split_lines("\n"), vec![String::new(), String::new()]);
    assert_eq!(split_lines("a\r\nb"), vec!["a\r".to_string(), "b".to_string()]);
    assert_eq!(split_lines("no line feed"), vec!["no line feed".to_string()]);
}

#[test]
fn split_lines_agrees_with_std() {
    let samples = ["", "\n\n", "x\ny\nz", "\u{e9}\n\u{4e2d}\u{6587}\n", "one"];
    for sample in samples {
        let expected: Vec<String> = sample.split("\n").map(|s| s.to_string()).collect();
        assert_eq!(split_lines(sample), expected);
    }
}
