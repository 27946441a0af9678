use nu_plugin_kcl::text::{
    copy_optional, copy_texts, decimal_text, followed_by, join, nonempty_lines_of,
};

fn owned(items: &[&str]) -> Vec<String> {
    items.iter().map(|s| s.to_string()).collect()
}

#[test]
fn decimal_text_writes_numerals() {
    assert_eq!(decimal_text(0), "0");
    assert_eq!(decimal_text(7), "7");
    assert_eq!(decimal_text(9), "9");
    assert_eq!(decimal_text(10), "10");
    assert_eq!(decimal_text(42), "42");
    assert_eq!(decimal_text(1000), "1000");
    assert_eq!(decimal_text(123456789), "123456789");
    assert_eq!(decimal_text(usize::MAX), format!("{}", usize::MAX));
}

#[test]
fn join_puts_the_separator_between() {
    assert_eq!(join(&owned(&[]), "\n"), "");
    assert_eq!(join(&owned(&["a"]), "\n"), "a");
    assert_eq!(join(&owned(&["a", "b", "c"]), "\n"), "a\nb\nc");
    assert_eq!(join(&owned(&["", ""]), ", "), ", ");
    assert_eq!(join(&owned(&["x", "y"]), ""), "xy");
}

#[test]
fn lines_end_at_line_feeds() {
    assert_eq!(nonempty_lines_of("a\nb\nc"), owned(&["a", "b", "c"]));
    assert_eq!(nonempty_lines_of("a\nb\n"), owned(&["a", "b"]));
    assert_eq!(nonempty_lines_of("./x/main.k\n./x/sub/vars.k\n"), owned(&["./x/main.k", "./x/sub/vars.k"]));
}

#[test]
fn empty_lines_are_left_out() {
    assert_eq!(nonempty_lines_of(""), owned(&[]));
    assert_eq!(nonempty_lines_of("\n"), owned(&[]));
    assert_eq!(nonempty_lines_of("\n\n\n"), owned(&[]));
    assert_eq!(nonempty_lines_of("\na\n\n\nb\n\n"), owned(&["a", "b"]));
    assert_eq!(nonempty_lines_of("\r\n"), owned(&[]));
}

#[test]
fn carriage_return_before_line_feed_belongs_to_the_ending() {
    assert_eq!(nonempty_lines_of("a\r\nb\r\n"), owned(&["a", "b"]));
    assert_eq!(nonempty_lines_of("a\r\r\nb"), owned(&["a\r", "b"]));
    assert_eq!(nonempty_lines_of("a\rb\nc"), owned(&["a\rb", "c"]));
    assert_eq!(nonempty_lines_of("a\r"), owned(&["a\r"]));
    assert_eq!(nonempty_lines_of("\r"), owned(&["\r"]));
    assert_eq!(nonempty_lines_of("\r\r\n"), owned(&["\r"]));
}

#[test]
fn lines_agree_with_the_standard_library() {
    let samples = [
        "", "a", "a\n", "\na", "a\r\n", "a\r", "\r\n\r\n", "a\n\nb", "x\r\ny\rz\n", "é\n✅ ok\r\n",
        "\r\r\r\n\r", "one\ntwo\r\n\r\nthree",
    ];
    for sample in samples {
        let expected: Vec<String> = sample
            .lines()
            .filter(|line| !line.is_empty())
            .map(|line| line.to_string())
            .collect();
        assert_eq!(nonempty_lines_of(sample), expected, "for {:?}", sample);
    }
}

#[test]
fn copies_are_equal() {
    assert_eq!(copy_texts(&owned(&["a", "", "b"])), owned(&["a", "", "b"]));
    assert_eq!(copy_texts(&owned(&[])), owned(&[]));
    assert_eq!(copy_optional(&Some("x".to_string())), Some("x".to_string()));
    assert_eq!(copy_optional(&None), None);
    assert_eq!(followed_by("ab", "cd"), "abcd");
    assert_eq!(followed_by("", ""), "");
}
