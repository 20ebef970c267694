use codex_context::text::{chars_of, join, split_lines};

fn std_lines(text: &str) -> Vec<String> {
    text.lines().map(|line| line.to_string()).collect()
}

#[test]
fn split_lines_matches_std_lines() {
    let samples = [
        "",
        "a",
        "a\n",
        "a\nb",
        "a\r\nb\r\n",
        "foo\nbar\n\r\nbaz\r",
        "\n",
        "\n\n",
        "\r\n",
        "\r",
        "x\r\ry\n",
        "héllo\nwörld ✓\n",
    ];
    for sample in samples {
        assert_eq!(split_lines(sample), std_lines(sample), "input {sample:?}");
    }
}

#[test]
fn split_lines_example() {
    assert_eq!(split_lines("a\r\nb\n\nc\r"), vec!["a", "b", "", "c\r"]);
}

#[test]
fn join_lines_with_separator() {
    let lines = vec!["a".to_string(), "b".to_string(), "c".to_string()];
    assert_eq!(join(&lines, "\n"), "a\nb\nc");
    assert_eq!(join(&Vec::new(), "\n"), "");
    assert_eq!(join(&vec!["only".to_string()], ", "), "only");
}

#[test]
fn chars_of_unicode() {
    assert_eq!(chars_of("aé✓"), vec!['a', 'é', '✓']);
}
