use resolvething::config::Config;
use resolvething::duplicates::{Duplicate, FclonesRunner, SyncThingFile, SyncThingFileType};
use resolvething::error::ResolvethingError;
use resolvething::invocation::Outcome;
use resolvething::matcher::ConflictMatcher;

#[test]
fn test_get_file_type_regular() {
    assert!(matches!(
        SyncThingFile::get_file_type("document.txt"),
        Ok(SyncThingFileType::Regular)
    ));
    assert!(matches!(
        SyncThingFile::get_file_type("image.jpg"),
        Ok(SyncThingFileType::Regular)
    ));
    assert!(matches!(
        SyncThingFile::get_file_type("data.csv"),
        Ok(SyncThingFileType::Regular)
    ));
    assert!(matches!(
        SyncThingFile::get_file_type("file.with.dots.txt"),
        Ok(SyncThingFileType::Regular)
    ));
}

#[test]
fn test_get_file_type_conflict() {
    assert!(matches!(
        SyncThingFile::get_file_type("document.txt.sync-conflict-20240101-123456"),
        Ok(SyncThingFileType::StConflict)
    ));
    assert!(matches!(
        SyncThingFile::get_file_type("image.sync-conflict-ABC123-XYZ789.jpg"),
        Ok(SyncThingFileType::StConflict)
    ));
    assert!(matches!(
        SyncThingFile::get_file_type("data.sync-conflict-12345"),
        Ok(SyncThingFileType::StConflict)
    ));
    assert!(matches!(
        SyncThingFile::get_file_type("file.sync-conflict-A1B2-C3D4.txt"),
        Ok(SyncThingFileType::StConflict)
    ));
    assert!(matches!(
        SyncThingFile::get_file_type("wohnen/Umzug.sync-conflict-20250412-111252-VNNIL2P.md"),
        Ok(SyncThingFileType::StConflict)
    ));
}

#[test]
fn test_get_file_type_orig() {
    assert!(matches!(
        SyncThingFile::get_file_type("document.txt.orig"),
        Ok(SyncThingFileType::OrigFile)
    ));
    assert!(matches!(
        SyncThingFile::get_file_type("image.jpg.orig"),
        Ok(SyncThingFileType::OrigFile)
    ));
    assert!(matches!(
        SyncThingFile::get_file_type("data.csv.orig"),
        Ok(SyncThingFileType::OrigFile)
    ));
    assert!(matches!(
        SyncThingFile::get_file_type("file.orig"),
        Ok(SyncThingFileType::OrigFile)
    ));
}

#[test]
fn test_get_file_type_tmp() {
    assert!(matches!(
        SyncThingFile::get_file_type("document.txt.tmp"),
        Ok(SyncThingFileType::TmpFile)
    ));
    assert!(matches!(
        SyncThingFile::get_file_type("image.jpg.tmp"),
        Ok(SyncThingFileType::TmpFile)
    ));
    assert!(matches!(
        SyncThingFile::get_file_type("data.csv.tmp"),
        Ok(SyncThingFileType::TmpFile)
    ));
    assert!(matches!(
        SyncThingFile::get_file_type("file.tmp"),
        Ok(SyncThingFileType::TmpFile)
    ));
}

#[test]
fn test_get_file_type_priority() {
    // The conflict marker comes before .orig and .tmp
    assert!(matches!(
        SyncThingFile::get_file_type("document.txt.sync-conflict-12345.orig"),
        Ok(SyncThingFileType::StConflict)
    ));
    assert!(matches!(
        SyncThingFile::get_file_type("document.txt.sync-conflict-12345.tmp"),
        Ok(SyncThingFileType::StConflict)
    ));

    // Only the last suffix counts
    assert!(matches!(
        SyncThingFile::get_file_type("document.txt.orig.tmp"),
        Ok(SyncThingFileType::TmpFile)
    ));
}

#[test]
fn test_syncthing_file_new() {
    let file = SyncThingFile::new("document.txt".to_string()).unwrap();
    assert_eq!(file.path, "document.txt");
    assert!(matches!(file.file_type, SyncThingFileType::Regular));

    let file = SyncThingFile::new("document.txt.sync-conflict-12345".to_string()).unwrap();
    assert_eq!(file.path, "document.txt.sync-conflict-12345");
    assert!(matches!(file.file_type, SyncThingFileType::StConflict));

    let file = SyncThingFile::new("document.txt.orig".to_string()).unwrap();
    assert_eq!(file.path, "document.txt.orig");
    assert!(matches!(file.file_type, SyncThingFileType::OrigFile));

    let file = SyncThingFile::new("document.txt.tmp".to_string()).unwrap();
    assert_eq!(file.path, "document.txt.tmp");
    assert!(matches!(file.file_type, SyncThingFileType::TmpFile));
}

#[test]
fn test_duplicate_new() {
    let duplicate = Duplicate::new(vec![
        "file1.txt".to_string(),
        "file2.txt.sync-conflict-12345".to_string(),
        "file3.txt.orig".to_string(),
    ])
    .unwrap();

    assert_eq!(duplicate.files.len(), 3);
    assert_eq!(duplicate.files[0].path, "file1.txt");
    assert!(matches!(
        duplicate.files[0].file_type,
        SyncThingFileType::Regular
    ));

    assert_eq!(duplicate.files[1].path, "file2.txt.sync-conflict-12345");
    assert!(matches!(
        duplicate.files[1].file_type,
        SyncThingFileType::StConflict
    ));

    assert_eq!(duplicate.files[2].path, "file3.txt.orig");
    assert!(matches!(
        duplicate.files[2].file_type,
        SyncThingFileType::OrigFile
    ));
}

#[test]
fn test_duplicate_new_empty() {
    let duplicate = Duplicate::new(vec![]).unwrap();
    assert_eq!(duplicate.files.len(), 0);
}

#[test]
fn test_fclones_runner_parse_output() {
    let output = r#"file1.txt
file2.txt.sync-conflict-12345

file3.txt
file4.txt.orig
file5.txt.tmp

file6.txt"#;

    let mut runner = FclonesRunner::new();
    runner.parse_output(output).unwrap();

    assert_eq!(runner.duplicate_groups.len(), 3);

    // First group: file1.txt and conflict file
    assert_eq!(runner.duplicate_groups[0].files.len(), 2);
    assert_eq!(runner.duplicate_groups[0].files[0].path, "file1.txt");
    assert_eq!(
        runner.duplicate_groups[0].files[1].path,
        "file2.txt.sync-conflict-12345"
    );

    // Second group: file3.txt, .orig, and .tmp
    assert_eq!(runner.duplicate_groups[1].files.len(), 3);
    assert_eq!(runner.duplicate_groups[1].files[0].path, "file3.txt");
    assert_eq!(runner.duplicate_groups[1].files[1].path, "file4.txt.orig");
    assert_eq!(runner.duplicate_groups[1].files[2].path, "file5.txt.tmp");

    // Third group: single file
    assert_eq!(runner.duplicate_groups[2].files.len(), 1);
    assert_eq!(runner.duplicate_groups[2].files[0].path, "file6.txt");
}

#[test]
fn test_fclones_runner_parse_output_empty() {
    let output = "";
    let mut runner = FclonesRunner::new();
    runner.parse_output(output).unwrap();
    assert_eq!(runner.duplicate_groups.len(), 0);
}

#[test]
fn test_fclones_runner_parse_output_trailing_newline() {
    let output = r#"file1.txt
file2.txt.sync-conflict-12345

file3.txt
"#;

    let mut runner = FclonesRunner::new();
    runner.parse_output(output).unwrap();

    assert_eq!(runner.duplicate_groups.len(), 2);
    assert_eq!(runner.duplicate_groups[0].files.len(), 2);
    assert_eq!(runner.duplicate_groups[1].files.len(), 1);
}

#[test]
fn test_fclones_runner_parse_output_no_trailing_newline() {
    let output = r#"file1.txt
file2.txt.sync-conflict-12345

file3.txt"#;

    let mut runner = FclonesRunner::new();
    runner.parse_output(output).unwrap();

    assert_eq!(runner.duplicate_groups.len(), 2);
    assert_eq!(runner.duplicate_groups[0].files.len(), 2);
    assert_eq!(runner.duplicate_groups[1].files.len(), 1);
}

fn group(paths: &[&str]) -> Duplicate {
    Duplicate::new(paths.iter().map(|p| p.to_string()).collect()).unwrap()
}

#[test]
fn classify_goes_by_marker_then_suffix() {
    assert_eq!(
        SyncThingFile::classify(true, "a.txt.orig"),
        SyncThingFileType::StConflict
    );
    assert_eq!(
        SyncThingFile::classify(true, "a.txt.tmp"),
        SyncThingFileType::StConflict
    );
    assert_eq!(
        SyncThingFile::classify(false, "a.txt.orig"),
        SyncThingFileType::OrigFile
    );
    assert_eq!(
        SyncThingFile::classify(false, "a.txt.tmp"),
        SyncThingFileType::TmpFile
    );
    assert_eq!(
        SyncThingFile::classify(false, "a.txt"),
        SyncThingFileType::Regular
    );
    assert_eq!(
        SyncThingFile::classify(false, ".orig"),
        SyncThingFileType::OrigFile
    );
    assert_eq!(
        SyncThingFile::classify(false, "orig"),
        SyncThingFileType::Regular
    );
    assert_eq!(SyncThingFile::classify(false, ""), SyncThingFileType::Regular);
}

#[test]
fn marker_is_found_anywhere_in_the_path() {
    assert!(matches!(
        SyncThingFile::get_file_type("dir.sync-conflict-A.d/notes.txt"),
        Ok(SyncThingFileType::StConflict)
    ));
    assert!(matches!(
        SyncThingFile::get_file_type("dir.sync-conflict-A/notes.txt"),
        Ok(SyncThingFileType::Regular)
    ));
    assert!(matches!(
        SyncThingFile::get_file_type("notes.sync-conflict-"),
        Ok(SyncThingFileType::StConflict)
    ));
    // A lower-case token is no token, and nothing else may follow the marker
    assert!(matches!(
        SyncThingFile::get_file_type("notes.sync-conflict-abc"),
        Ok(SyncThingFileType::Regular)
    ));
    assert!(matches!(
        SyncThingFile::get_file_type("notes.sync-conflict"),
        Ok(SyncThingFileType::Regular)
    ));
}

#[test]
fn select_single_regular_file() {
    let duplicate = group(&["a.txt", "a.txt.sync-conflict-20240101-ABC123"]);
    assert_eq!(duplicate.try_auto_select(), Some("a.txt".to_string()));
}

#[test]
fn select_conflict_among_temporaries() {
    let duplicate = group(&["a.txt.sync-conflict-X", "a.txt.tmp"]);
    assert_eq!(
        duplicate.try_auto_select(),
        Some("a.txt.sync-conflict-X".to_string())
    );
    let duplicate = group(&["b.tmp", "a.txt.sync-conflict-X", "a.txt.tmp"]);
    assert_eq!(
        duplicate.try_auto_select(),
        Some("a.txt.sync-conflict-X".to_string())
    );
}

#[test]
fn select_first_of_three_temporaries() {
    let duplicate = group(&["c.tmp", "a.tmp", "b.tmp"]);
    assert_eq!(duplicate.try_auto_select(), Some("c.tmp".to_string()));
}

#[test]
fn select_first_of_conflicts_only() {
    let duplicate = group(&["b.sync-conflict-B", "a.sync-conflict-A"]);
    assert_eq!(
        duplicate.try_auto_select(),
        Some("b.sync-conflict-B".to_string())
    );
}

#[test]
fn select_nothing_where_categories_do_not_settle() {
    assert_eq!(group(&[]).try_auto_select(), None);
    // a regular file alone
    assert_eq!(group(&["a.txt"]).try_auto_select(), None);
    // two regular files
    assert_eq!(group(&["a.txt", "b.txt"]).try_auto_select(), None);
    // backups only
    assert_eq!(group(&["a.orig", "b.orig"]).try_auto_select(), None);
    // a conflict file and a backup
    assert_eq!(
        group(&["a.sync-conflict-A", "a.orig"]).try_auto_select(),
        None
    );
    // two conflict files and a temporary one
    assert_eq!(
        group(&["a.sync-conflict-A", "a.sync-conflict-B", "a.tmp"]).try_auto_select(),
        None
    );
}

#[test]
fn select_single_files() {
    assert_eq!(
        group(&["a.sync-conflict-A"]).try_auto_select(),
        Some("a.sync-conflict-A".to_string())
    );
    assert_eq!(group(&["a.tmp"]).try_auto_select(), Some("a.tmp".to_string()));
    assert_eq!(group(&["a.orig"]).try_auto_select(), None);
}

#[test]
fn select_regular_file_before_other_rules() {
    let duplicate = group(&["a.tmp", "a.sync-conflict-A", "a.txt", "a.orig"]);
    assert_eq!(duplicate.try_auto_select(), Some("a.txt".to_string()));
}

#[test]
fn selection_is_repeatable_and_a_member() {
    let duplicate = group(&["x.tmp", "y.tmp", "z.sync-conflict-Q"]);
    let first = duplicate.try_auto_select();
    let second = duplicate.try_auto_select();
    assert_eq!(first, second);
    let keep = first.unwrap();
    assert!(duplicate.paths().contains(&keep));
}

#[test]
fn paths_are_in_group_order() {
    let duplicate = group(&["b.txt", "a.txt", "c.tmp"]);
    assert_eq!(
        duplicate.paths(),
        vec!["b.txt".to_string(), "a.txt".to_string(), "c.tmp".to_string()]
    );
}

#[test]
fn keep_only_trashes_every_other_file() {
    let config = Config::new("/data".to_string());
    let duplicate = group(&["a.txt", "b.txt", "a.txt", "c.txt"]);
    let calls = duplicate.keep_only("a.txt".to_string(), &config);
    assert_eq!(calls.len(), 2);
    assert_eq!(calls[0].program, "trash");
    assert_eq!(calls[0].arguments, vec!["b.txt".to_string()]);
    assert_eq!(calls[1].program, "trash");
    assert_eq!(calls[1].arguments, vec!["c.txt".to_string()]);
}

#[test]
fn keep_only_with_a_stranger_trashes_all() {
    let config = Config {
        working_directory: "/data".to_string(),
        trash_command: "gio".to_string(),
    };
    let duplicate = group(&["a.txt", "b.txt"]);
    let calls = duplicate.keep_only("z.txt".to_string(), &config);
    assert_eq!(calls.len(), 2);
    assert_eq!(calls[0].program, "gio");
    assert_eq!(calls[0].arguments, vec!["a.txt".to_string()]);
    assert_eq!(calls[1].arguments, vec!["b.txt".to_string()]);
}

#[test]
fn parse_output_yields_two_groups_of_two_and_one() {
    let mut runner = FclonesRunner::new();
    runner.parse_output("file1\nfile2\n\nfile3").unwrap();
    assert_eq!(runner.duplicate_groups.len(), 2);
    assert_eq!(runner.duplicate_groups[0].files.len(), 2);
    assert_eq!(runner.duplicate_groups[1].files.len(), 1);
}

#[test]
fn parse_output_adds_behind_what_is_held() {
    let mut runner = FclonesRunner::new();
    runner.parse_output("a\nb\n").unwrap();
    runner.parse_output("\n\n\nc.tmp\r\nd.orig\r\n\r\ne\n").unwrap();
    assert_eq!(runner.duplicate_groups.len(), 3);
    assert_eq!(runner.duplicate_groups[0].files[1].path, "b");
    assert_eq!(runner.duplicate_groups[1].files[0].path, "c.tmp");
    assert!(matches!(
        runner.duplicate_groups[1].files[0].file_type,
        SyncThingFileType::TmpFile
    ));
    assert_eq!(runner.duplicate_groups[1].files[1].path, "d.orig");
    assert_eq!(runner.duplicate_groups[2].files[0].path, "e");
}

#[test]
fn command_asks_for_hidden_files_without_versions() {
    let call = FclonesRunner::command("/home/me/wiki");
    assert_eq!(call.program, "fclones");
    assert_eq!(
        call.arguments,
        vec![
            "group".to_string(),
            "--hidden".to_string(),
            "/home/me/wiki".to_string(),
            "--format".to_string(),
            "fdupes".to_string(),
            "--cache".to_string(),
            "--exclude".to_string(),
            "**/.stversions/**".to_string(),
        ]
    );
}

#[test]
fn run_takes_in_the_output_of_a_good_run() {
    let mut runner = FclonesRunner::new();
    let outcome = Outcome::Exited {
        succeeded: true,
        status: "exit status: 0".to_string(),
        stdout: "gr\u{fc}n.txt\ngr\u{fc}n.txt.tmp\n".as_bytes().to_vec(),
        stderr: vec![],
    };
    assert_eq!(runner.run_recursively(&outcome), Ok(()));
    assert_eq!(runner.duplicate_groups.len(), 1);
    assert_eq!(runner.duplicate_groups[0].files[0].path, "gr\u{fc}n.txt");
    assert_eq!(
        runner.duplicate_groups[0].try_auto_select(),
        Some("gr\u{fc}n.txt".to_string())
    );
}

#[test]
fn run_fails_where_the_tool_did() {
    let mut runner = FclonesRunner::new();
    let outcome = Outcome::NotStarted("No such file or directory".to_string());
    assert_eq!(
        runner.run_recursively(&outcome),
        Err(ResolvethingError::Duplicate(
            "Failed to execute fclones: No such file or directory".to_string()
        ))
    );
    let outcome = Outcome::Exited {
        succeeded: false,
        status: "exit status: 2".to_string(),
        stdout: b"a\nb\n".to_vec(),
        stderr: vec![],
    };
    assert_eq!(
        runner.run_recursively(&outcome),
        Err(ResolvethingError::Duplicate(
            "fclones failed with status: exit status: 2".to_string()
        ))
    );
    let outcome = Outcome::Exited {
        succeeded: true,
        status: "exit status: 0".to_string(),
        stdout: vec![b'a', 0xff, b'\n'],
        stderr: vec![],
    };
    assert_eq!(
        runner.run_recursively(&outcome),
        Err(ResolvethingError::Duplicate(
            "Failed to parse fclones output: invalid UTF-8".to_string()
        ))
    );
    assert_eq!(runner.duplicate_groups.len(), 0);
}

#[test]
fn compiled_expression_tells_marked_paths() {
    let matcher = ConflictMatcher::new().unwrap();
    assert!(matcher.is_marked("a.sync-conflict-20240101-ABC.md"));
    assert!(matcher.is_marked("a.txt.sync-conflict-X"));
    assert!(!matcher.is_marked("a.txt"));
    assert!(!matcher.is_marked("a.sync-conflict-x"));
}

#[test]
fn categories_with_an_expression_compiled_before() {
    let matcher = ConflictMatcher::new().unwrap();
    assert_eq!(
        SyncThingFile::get_file_type_with(&matcher, "a.txt.sync-conflict-X.orig"),
        SyncThingFileType::StConflict
    );
    assert_eq!(
        SyncThingFile::get_file_type_with(&matcher, "a.txt.orig"),
        SyncThingFileType::OrigFile
    );
    assert_eq!(
        SyncThingFile::get_file_type_with(&matcher, "a.txt.tmp"),
        SyncThingFileType::TmpFile
    );
    assert_eq!(
        SyncThingFile::get_file_type_with(&matcher, "a.txt"),
        SyncThingFileType::Regular
    );
    let file = SyncThingFile::new_with(&matcher, "b.sync-conflict-B".to_string());
    assert_eq!(file.path, "b.sync-conflict-B");
    assert_eq!(file.file_type, SyncThingFileType::StConflict);
    let duplicate = Duplicate::new_with(
        &matcher,
        &vec!["a.tmp".to_string(), "a.sync-conflict-A".to_string()],
    );
    assert_eq!(duplicate.files.len(), 2);
    assert_eq!(duplicate.files[0].file_type, SyncThingFileType::TmpFile);
    assert_eq!(duplicate.files[1].file_type, SyncThingFileType::StConflict);
    assert_eq!(
        duplicate.try_auto_select(),
        Some("a.sync-conflict-A".to_string())
    );
}

#[test]
fn parse_with_an_expression_compiled_before() {
    let matcher = ConflictMatcher::new().unwrap();
    let mut runner = FclonesRunner::new();
    runner.parse_output_with(&matcher, "");
    assert_eq!(runner.duplicate_groups.len(), 0);
    runner.parse_output_with(&matcher, "a.txt\na.txt.orig\n\nb.tmp\n");
    assert_eq!(runner.duplicate_groups.len(), 2);
    assert_eq!(runner.duplicate_groups[0].files[1].path, "a.txt.orig");
    assert_eq!(
        runner.duplicate_groups[0].files[1].file_type,
        SyncThingFileType::OrigFile
    );
    assert_eq!(runner.duplicate_groups[1].files[0].path, "b.tmp");
}

#[test]
fn run_with_an_expression_compiled_before() {
    let matcher = ConflictMatcher::new().unwrap();
    let mut runner = FclonesRunner::new();
    let good = Outcome::Exited {
        succeeded: true,
        status: "exit status: 0".to_string(),
        stdout: b"a.txt\nb.txt\n".to_vec(),
        stderr: b"scanned 2 files".to_vec(),
    };
    assert_eq!(runner.run_recursively_with(&matcher, &good), Ok(()));
    assert_eq!(runner.duplicate_groups.len(), 1);
    let failed = Outcome::Exited {
        succeeded: false,
        status: "signal: 9".to_string(),
        stdout: b"c.txt\nd.txt\n".to_vec(),
        stderr: vec![],
    };
    assert_eq!(
        runner.run_recursively_with(&matcher, &failed),
        Err(ResolvethingError::Duplicate(
            "fclones failed with status: signal: 9".to_string()
        ))
    );
    assert_eq!(runner.duplicate_groups.len(), 1);
}
