use resolvething::fdupes_runner::{parse_groups, read_run, FdupesRunner};
use resolvething::invocation::Outcome;
use resolvething::text::{chars_of, contains_segment, ends_with, holds, lines, string_of};

fn strings(items: &[&str]) -> Vec<String> {
    items.iter().map(|s| s.to_string()).collect()
}

#[test]
fn lines_end_at_line_feeds() {
    assert_eq!(lines(""), Vec::<String>::new());
    assert_eq!(lines("a"), strings(&["a"]));
    assert_eq!(lines("a\n"), strings(&["a"]));
    assert_eq!(lines("a\nb"), strings(&["a", "b"]));
    assert_eq!(lines("a\n\nb\n"), strings(&["a", "", "b"]));
    assert_eq!(lines("\n"), strings(&[""]));
    assert_eq!(lines("\n\n"), strings(&["", ""]));
}

#[test]
fn lines_drop_a_carriage_return_before_a_line_feed() {
    assert_eq!(lines("a\r\nb\r\n"), strings(&["a", "b"]));
    assert_eq!(lines("a\r"), strings(&["a\r"]));
    assert_eq!(lines("a\r\r\n"), strings(&["a\r"]));
    assert_eq!(lines("\r\n"), strings(&[""]));
    assert_eq!(lines("a\rb\n"), strings(&["a\rb"]));
}

#[test]
fn lines_agree_with_the_standard_library() {
    for text in [
        "",
        "one",
        "one\ntwo",
        "one\r\ntwo\r\n\r\n",
        "\n\n\nx\n\n",
        "gr\u{fc}n\n\u{1f600}\r\n",
        "tail\r",
        "\r",
        "\r\r\n\r",
    ] {
        let expected: Vec<String> = text.lines().map(|l| l.to_string()).collect();
        assert_eq!(lines(text), expected);
    }
}

#[test]
fn chars_and_strings_convert_both_ways() {
    let chars = chars_of("gr\u{fc}n");
    assert_eq!(chars, vec!['g', 'r', '\u{fc}', 'n']);
    assert_eq!(string_of(&chars, 0, 4), "gr\u{fc}n");
    assert_eq!(string_of(&chars, 1, 3), "r\u{fc}");
    assert_eq!(string_of(&chars, 2, 2), "");
}

#[test]
fn ends_with_compares_characters() {
    assert!(ends_with("a.orig", ".orig"));
    assert!(ends_with(".orig", ".orig"));
    assert!(!ends_with("orig", ".orig"));
    assert!(!ends_with("a.orig ", ".orig"));
    assert!(ends_with("anything", ""));
    assert!(ends_with("", ""));
    assert!(ends_with("gr\u{fc}n", "\u{fc}n"));
}

#[test]
fn segments_are_whole_names() {
    assert!(contains_segment(".stversions", ".stversions"));
    assert!(contains_segment(".stversions/a", ".stversions"));
    assert!(contains_segment("/.stversions/a", ".stversions"));
    assert!(contains_segment("a/b/.stversions", ".stversions"));
    assert!(contains_segment("a/.stversions/b/c.md", ".stversions"));
    assert!(!contains_segment("a/x.stversions/b", ".stversions"));
    assert!(!contains_segment("a/.stversions.bak/b", ".stversions"));
    assert!(!contains_segment("a/.stversion/b", ".stversions"));
    assert!(!contains_segment("", ".stversions"));
    assert!(!contains_segment("a", ".stversions"));
}

#[test]
fn holds_finds_exact_items() {
    let items = strings(&["a", "b c", ""]);
    assert!(holds(&items, &"b c".to_string()));
    assert!(holds(&items, &"".to_string()));
    assert!(!holds(&items, &"b".to_string()));
    assert!(!holds(&vec![], &"a".to_string()));
}

#[test]
fn groups_are_stretches_without_a_blank_line() {
    assert_eq!(parse_groups(""), Vec::<Vec<String>>::new());
    assert_eq!(parse_groups("\n\n\n"), Vec::<Vec<String>>::new());
    assert_eq!(
        parse_groups("file1\nfile2\n\nfile3"),
        vec![strings(&["file1", "file2"]), strings(&["file3"])]
    );
    assert_eq!(
        parse_groups("\n\na\n\n\n\nb\nc\n\n"),
        vec![strings(&["a"]), strings(&["b", "c"])]
    );
    assert_eq!(
        parse_groups("a\r\nb\r\n\r\nc\r\n"),
        vec![strings(&["a", "b"]), strings(&["c"])]
    );
}

#[test]
fn fdupes_runner_adds_groups_in_order() {
    let mut runner = FdupesRunner::new();
    assert_eq!(runner.duplicate_groups.len(), 0);
    runner.parse_output("x\ny\n\nz\n");
    runner.parse_output("");
    runner.parse_output("w");
    assert_eq!(
        runner.duplicate_groups,
        vec![strings(&["x", "y"]), strings(&["z"]), strings(&["w"])]
    );
}

#[test]
fn fdupes_is_asked_to_descend() {
    let call = FdupesRunner::command("/data");
    assert_eq!(call.program, "fdupes");
    assert_eq!(call.arguments, strings(&["-r", "/data"]));
}

#[test]
fn fdupes_run_is_taken_in_or_reported() {
    let mut runner = FdupesRunner::new();
    let good = Outcome::Exited {
        succeeded: true,
        status: "exit status: 0".to_string(),
        stdout: b"a\nb\n\nc\nd\n".to_vec(),
        stderr: vec![],
    };
    assert_eq!(runner.run_recursively(&good), Ok(()));
    assert_eq!(
        runner.duplicate_groups,
        vec![strings(&["a", "b"]), strings(&["c", "d"])]
    );
    let failed = Outcome::Exited {
        succeeded: false,
        status: "exit status: 1".to_string(),
        stdout: b"e\nf\n".to_vec(),
        stderr: vec![],
    };
    assert_eq!(
        runner.run_recursively(&failed),
        Err("fdupes failed with status: exit status: 1".to_string())
    );
    assert_eq!(
        runner.run_recursively(&Outcome::NotStarted("gone".to_string())),
        Err("Failed to execute fdupes: gone".to_string())
    );
    assert_eq!(runner.duplicate_groups.len(), 2);
}

#[test]
fn run_output_must_be_text() {
    let run = |stdout: &[u8]| Outcome::Exited {
        succeeded: true,
        status: String::new(),
        stdout: stdout.to_vec(),
        stderr: vec![],
    };
    assert_eq!(read_run("tool", &run(b"")), Ok(String::new()));
    assert_eq!(
        read_run("tool", &run("gr\u{fc}n \u{1f600}".as_bytes())),
        Ok("gr\u{fc}n \u{1f600}".to_string())
    );
    let refused = Err("Failed to parse tool output: invalid UTF-8".to_string());
    // a lone continuation byte, a truncated sequence, an overlong form, a surrogate
    assert_eq!(read_run("tool", &run(b"\x80")), refused);
    assert_eq!(read_run("tool", &run(b"a\xc3")), refused);
    assert_eq!(read_run("tool", &run(b"\xc0\xaf")), refused);
    assert_eq!(read_run("tool", &run(b"\xed\xa0\x80")), refused);
}
