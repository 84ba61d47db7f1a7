use grev::paths::{checked_path, join_path, parent_dir, split_listing, strip_newline, text_path};
use grev::{
    bytes_to_path, git_command, git_output, git_raw_output, git_run, list_tracked_objects,
    print_rerun_if_changed, revision_bare_impl, revision_impl, trim_text, with_valid_git, Action,
    Gate, Outcome, Resolver, RevisionError, Sources,
};

fn ok(stdout: &[u8]) -> Outcome {
    Outcome::Exited { code: Some(0), stdout: stdout.to_vec() }
}

fn failed(code: i32) -> Outcome {
    Outcome::Exited { code: Some(code), stdout: Vec::new() }
}

fn args(words: &[&str]) -> Vec<Vec<u8>> {
    words.iter().map(|w| w.as_bytes().to_vec()).collect()
}

fn text(bytes: &[u8]) -> String {
    String::from_utf8_lossy(bytes).into_owned()
}

struct Trace {
    lines: Vec<String>,
    runs: Vec<(Vec<String>, bool)>,
    result: Option<Result<Option<String>, RevisionError>>,
}

/// Feeds `outcomes` to a resolution, one per run it asks for.
fn drive(mark_changes: bool, sources: Sources, outcomes: Vec<Outcome>) -> Trace {
    drive_on(mark_changes, sources, false, outcomes)
}

/// Feeds `outcomes` to a resolution on a platform whose paths are text
/// where `text_paths` holds.
fn drive_on(mark_changes: bool, sources: Sources, text_paths: bool, outcomes: Vec<Outcome>) -> Trace {
    let mut resolver = Resolver::new(mark_changes, sources, text_paths);
    let probe = Resolver::probe();
    let mut runs = vec![(probe.args.iter().map(|a| text(a)).collect(), probe.quiet)];
    let mut lines = Vec::new();
    for outcome in outcomes {
        let step = resolver.step(outcome);
        lines.extend(step.lines.iter().map(|l| text(l)));
        match step.action {
            Action::Run(invocation) => {
                runs.push((invocation.args.iter().map(|a| text(a)).collect(), invocation.quiet));
            },
            Action::Finish(result) => {
                assert!(resolver.is_finished());
                return Trace { lines, runs, result: Some(result) };
            },
        }
    }
    Trace { lines, runs, result: None }
}

fn revision(trace: &Trace) -> Option<String> {
    match &trace.result {
        Some(Ok(r)) => r.clone(),
        other => panic!("no revision: {:?}", other),
    }
}

fn metadata_lines() -> Vec<String> {
    vec![
        "cargo:rerun-if-changed=/repo/.git/HEAD".to_string(),
        "cargo:rerun-if-changed=/repo/.git/index".to_string(),
        "cargo:rerun-if-changed=/repo/.git/refs/".to_string(),
    ]
}

#[test]
fn unavailable_when_git_cannot_start() {
    let trace = drive(true, Sources::Discovered, vec![Outcome::NotLaunched]);
    assert_eq!(revision(&trace), None);
    assert_eq!(
        trace.lines,
        vec![
            "cargo:warning=Failed to invoke `git`; unable to embed git revision: failed to run `git rev-parse --git-dir`"
                .to_string()
        ]
    );
    assert_eq!(trace.runs, vec![(vec!["rev-parse".to_string(), "--git-dir".to_string()], true)]);
}

#[test]
fn unavailable_outside_repository() {
    for probe in [failed(128), Outcome::Exited { code: None, stdout: Vec::new() }] {
        let trace = drive(false, Sources::Listed(Vec::new()), vec![probe]);
        assert_eq!(revision(&trace), None);
        assert_eq!(
            trace.lines,
            vec!["cargo:warning=Not in a git repository; unable to embed git revision".to_string()]
        );
    }
}

fn auto_outcomes(listing: &[u8], describe: Outcome, rest: Vec<Outcome>) -> Vec<Outcome> {
    let mut v = vec![ok(b""), ok(b"/repo\n"), ok(listing), ok(b"/repo/.git\n"), describe];
    v.extend(rest);
    v
}

#[test]
fn auto_clean_tag() {
    let trace = drive(
        true,
        Sources::Discovered,
        auto_outcomes(b"a.rs\0src/b c.rs\0-dash.rs\0", ok(b"v1.0\n"), vec![ok(b"")]),
    );
    assert_eq!(revision(&trace), Some("v1.0".to_string()));
    let mut expected = metadata_lines();
    expected.push("cargo:rerun-if-changed=/repo/a.rs".to_string());
    expected.push("cargo:rerun-if-changed=/repo/src/b c.rs".to_string());
    expected.push("cargo:rerun-if-changed=/repo/-dash.rs".to_string());
    assert_eq!(trace.lines, expected);
    let runs: Vec<Vec<String>> = trace.runs.iter().map(|r| r.0.clone()).collect();
    assert_eq!(
        runs,
        vec![
            vec!["rev-parse", "--git-dir"],
            vec!["rev-parse", "--show-toplevel"],
            vec!["-C", "/repo", "ls-files", "--full-name", "-z"],
            vec!["rev-parse", "--absolute-git-dir"],
            vec!["describe", "--exact-match", "--tags", "HEAD"],
            vec!["status", "--porcelain", "--untracked-files=no"],
        ]
        .into_iter()
        .map(|r| r.into_iter().map(String::from).collect::<Vec<String>>())
        .collect::<Vec<_>>()
    );
    assert!(trace.runs[0].1);
    assert!(trace.runs[1..].iter().all(|r| !r.1));
}

#[test]
fn auto_modified_tag_has_one_marker() {
    let trace = drive(
        true,
        Sources::Discovered,
        auto_outcomes(b"a.rs\0", ok(b"v1.0\n"), vec![ok(b" M a.rs\n")]),
    );
    assert_eq!(revision(&trace), Some("v1.0+".to_string()));
}

#[test]
fn auto_without_tag_uses_short_hash() {
    let trace = drive(
        true,
        Sources::Discovered,
        auto_outcomes(b"a.rs\0", failed(128), vec![ok(b"a1b2c3d\n"), ok(b"")]),
    );
    assert_eq!(revision(&trace), Some("a1b2c3d".to_string()));
    assert_eq!(trace.runs[5].0, vec!["rev-parse", "--short", "HEAD"]);
}

#[test]
fn auto_without_tag_and_modified() {
    let trace = drive(
        true,
        Sources::Discovered,
        auto_outcomes(b"a.rs\0", failed(128), vec![ok(b"a1b2c3d\n"), ok(b"M  a.rs\n")]),
    );
    assert_eq!(revision(&trace), Some("a1b2c3d+".to_string()));
}

#[test]
fn bare_never_marks() {
    let outcomes = vec![ok(b""), ok(b"/repo/.git\n"), ok(b"v2\n"), ok(b" M dirty.rs\n")];
    let trace = drive(false, Sources::Listed(Vec::new()), outcomes);
    assert_eq!(revision(&trace), Some("v2".to_string()));
    assert_eq!(trace.runs.len(), 3);
    assert_eq!(trace.lines, metadata_lines());
}

#[test]
fn bare_twice_gives_the_same_revision() {
    let outcomes = || vec![ok(b""), ok(b"/repo/.git\n"), failed(128), ok(b"0123abc\n")];
    let first = drive(false, Sources::Listed(Vec::new()), outcomes());
    let second = drive(false, Sources::Listed(Vec::new()), outcomes());
    assert_eq!(revision(&first), Some("0123abc".to_string()));
    assert_eq!(revision(&first), revision(&second));
    assert_eq!(first.lines, second.lines);
}

#[test]
fn directives_for_listed_sources() {
    let sources = Sources::Listed(args(&["src/", "/abs/build.rs"]));
    let trace = drive(true, sources, vec![ok(b""), ok(b"/repo/.git\n"), ok(b"v1\n"), ok(b"")]);
    let mut expected = metadata_lines();
    expected.push("cargo:rerun-if-changed=/repo/src/".to_string());
    expected.push("cargo:rerun-if-changed=/abs/build.rs".to_string());
    assert_eq!(trace.lines, expected);
}

#[test]
fn empty_repository_adds_no_directive() {
    let trace = drive(true, Sources::Discovered, auto_outcomes(b"", failed(128), vec![ok(b"abc\n"), ok(b"")]));
    assert_eq!(trace.lines, metadata_lines());
    assert_eq!(revision(&trace), Some("abc".to_string()));
}

#[test]
fn short_hash_failure_is_an_error() {
    let trace = drive(false, Sources::Listed(Vec::new()), vec![ok(b""), ok(b"/repo/.git\n"), failed(128), failed(129)]);
    match trace.result {
        Some(Err(RevisionError::Command { command, code })) => {
            assert_eq!(text(&command), "git rev-parse --short HEAD");
            assert_eq!(code, Some(129));
        },
        other => panic!("unexpected: {:?}", other),
    }
}

#[test]
fn short_hash_not_utf8_is_an_error() {
    let trace = drive(
        false,
        Sources::Listed(Vec::new()),
        vec![ok(b""), ok(b"/repo/.git\n"), ok(b"\xff\n"), ok(b"\xfe\n")],
    );
    match trace.result {
        Some(Err(RevisionError::Encoding { command })) => {
            assert_eq!(text(&command), "git rev-parse --short HEAD")
        },
        other => panic!("unexpected: {:?}", other),
    }
}

#[test]
fn metadata_directory_failure_is_an_error() {
    let trace = drive(false, Sources::Listed(Vec::new()), vec![ok(b""), Outcome::NotLaunched]);
    assert!(trace.lines.is_empty());
    match trace.result {
        Some(Err(RevisionError::Launch { command })) => {
            assert_eq!(text(&command), "git rev-parse --absolute-git-dir")
        },
        other => panic!("unexpected: {:?}", other),
    }
}

#[test]
fn status_killed_by_signal_is_an_error() {
    let outcomes = vec![ok(b""), ok(b"/repo/.git\n"), ok(b"v1\n"), Outcome::Exited { code: None, stdout: Vec::new() }];
    let trace = drive(true, Sources::Listed(Vec::new()), outcomes);
    match trace.result {
        Some(Err(RevisionError::Command { command, code })) => {
            assert_eq!(text(&command), "git status --porcelain --untracked-files=no");
            assert_eq!(code, None);
        },
        other => panic!("unexpected: {:?}", other),
    }
}

#[test]
fn listing_failure_is_an_error() {
    let trace = drive(true, Sources::Discovered, vec![ok(b""), ok(b"/my repo\n"), failed(1)]);
    match trace.result {
        Some(Err(RevisionError::Command { command, code })) => {
            assert_eq!(text(&command), "git -C /my repo ls-files --full-name -z");
            assert_eq!(code, Some(1));
        },
        other => panic!("unexpected: {:?}", other),
    }
}

#[test]
fn finished_resolution_stays_finished() {
    let mut resolver = Resolver::new(true, Sources::Listed(Vec::new()), false);
    let step = resolver.step(failed(128));
    assert!(matches!(step.action, Action::Finish(Ok(None))));
    let again = resolver.step(ok(b""));
    assert!(again.lines.is_empty());
    assert!(matches!(again.action, Action::Finish(Ok(None))));
}

#[test]
fn gate_decisions() {
    assert!(matches!(with_valid_git(&ok(b"")), Gate::Proceed));
    assert!(matches!(with_valid_git(&failed(128)), Gate::Unavailable { .. }));
    assert!(matches!(with_valid_git(&Outcome::NotLaunched), Gate::Unavailable { .. }));
}

#[test]
fn trims_unicode_white_space() {
    assert_eq!(trim_text("  v1.0\n"), "v1.0");
    assert_eq!(trim_text("\u{3000}x y\u{85}\t"), "x y");
    assert_eq!(trim_text(" \n "), "");
    assert_eq!(trim_text(""), "");
    assert_eq!(trim_text("a"), "a");
}

#[test]
fn formats_command_lines() {
    assert_eq!(text(&git_command(&args(&["rev-parse", "--short", "HEAD"]))), "git rev-parse --short HEAD");
    assert_eq!(text(&git_command(&Vec::new())), "git");
}

#[test]
fn raw_output_and_text_output() {
    let a = args(&["describe"]);
    assert_eq!(git_raw_output(&a, ok(b"x\n")).unwrap(), b"x\n".to_vec());
    assert!(matches!(git_raw_output(&a, failed(2)), Err(RevisionError::Command { code: Some(2), .. })));
    assert!(matches!(git_raw_output(&a, Outcome::NotLaunched), Err(RevisionError::Launch { .. })));
    assert_eq!(git_output(&a, ok("é\n".as_bytes())).unwrap(), "é\n");
    assert!(matches!(git_output(&a, ok(b"\xc3")), Err(RevisionError::Encoding { .. })));
    assert_eq!(git_run(&a, &ok(b"")).unwrap(), true);
    assert_eq!(git_run(&a, &failed(1)).unwrap(), false);
    assert!(git_run(&a, &Outcome::NotLaunched).is_err());
}

#[test]
fn bare_and_marked_revisions() {
    assert_eq!(revision_bare_impl(ok(b"v3\n"), failed(1)).unwrap(), "v3");
    assert_eq!(revision_bare_impl(failed(128), ok(b" abc1234 \n")).unwrap(), "abc1234");
    assert!(revision_bare_impl(failed(128), Outcome::NotLaunched).is_err());
    assert_eq!(revision_impl("v3".to_string(), ok(b"")).unwrap(), "v3");
    assert_eq!(revision_impl("v3".to_string(), ok(b"?")).unwrap(), "v3+");
    assert!(revision_impl("v3".to_string(), failed(1)).is_err());
}

#[test]
fn rerun_directives_directly() {
    let lines = print_rerun_if_changed(ok(b"/r/.git\n"), &args(&["x"]), false, false).unwrap();
    let lines: Vec<String> = lines.iter().map(|l| text(l)).collect();
    assert_eq!(
        lines,
        vec![
            "cargo:rerun-if-changed=/r/.git/HEAD",
            "cargo:rerun-if-changed=/r/.git/index",
            "cargo:rerun-if-changed=/r/.git/refs/",
            "cargo:rerun-if-changed=/r/x",
        ]
    );
    assert!(print_rerun_if_changed(failed(1), &Vec::new(), false, false).is_err());
}

#[test]
fn paths() {
    assert_eq!(bytes_to_path(b"/a b"), b"/a b".to_vec());
    assert_eq!(strip_newline(b"/a\n"), b"/a".to_vec());
    assert_eq!(strip_newline(b"/a"), b"/a".to_vec());
    assert_eq!(strip_newline(b""), Vec::<u8>::new());
    assert_eq!(join_path(b"/a", b"b"), b"/a/b".to_vec());
    assert_eq!(join_path(b"/a/", b"b"), b"/a/b".to_vec());
    assert_eq!(join_path(b"/a", b"/c"), b"/c".to_vec());
    assert_eq!(join_path(b"", b"c"), b"c".to_vec());
    assert_eq!(join_path(b"/a", b""), b"/a/".to_vec());
    assert_eq!(parent_dir(b"/repo/.git"), b"/repo".to_vec());
    assert_eq!(parent_dir(b"/x"), b"/".to_vec());
    assert_eq!(parent_dir(b"x"), Vec::<u8>::new());
}

#[test]
fn listings() {
    let names = split_listing(b"a\0b c\0\0-d");
    assert_eq!(names, vec![b"a".to_vec(), b"b c".to_vec(), b"-d".to_vec()]);
    assert!(split_listing(b"").is_empty());
    assert!(split_listing(b"\0").is_empty());
    let paths = list_tracked_objects(b"/t", b"x\0dir/y z\0");
    assert_eq!(paths, vec![b"/t/x".to_vec(), b"/t/dir/y z".to_vec()]);
}

#[test]
fn blank_tag_falls_back_to_short_hash() {
    let trace = drive(
        true,
        Sources::Listed(Vec::new()),
        vec![ok(b""), ok(b"/repo/.git\n"), ok(b" \n"), ok(b"a1b2c3d\n"), ok(b"")],
    );
    assert_eq!(revision(&trace), Some("a1b2c3d".to_string()));
    assert_eq!(revision_bare_impl(ok(b"\n"), ok(b"abc\n")).unwrap(), "abc");
}

#[test]
fn blank_short_hash_is_malformed() {
    let trace = drive(false, Sources::Listed(Vec::new()), vec![ok(b""), ok(b"/repo/.git\n"), failed(128), ok(b"\n")]);
    match trace.result {
        Some(Err(RevisionError::Malformed { command })) => {
            assert_eq!(text(&command), "git rev-parse --short HEAD")
        },
        other => panic!("unexpected: {:?}", other),
    }
    assert!(matches!(revision_bare_impl(failed(128), ok(b"")), Err(RevisionError::Malformed { .. })));
}

#[test]
fn text_paths_reject_bytes_that_are_not_utf8() {
    let outcomes = || vec![ok(b""), ok(b"/r\xff\n"), ok(b"a\0"), ok(b"/r/.git\n"), ok(b"v1\n"), ok(b"")];
    let trace = drive_on(true, Sources::Discovered, true, outcomes());
    match trace.result {
        Some(Err(RevisionError::Encoding { command })) => {
            assert_eq!(text(&command), "git rev-parse --show-toplevel")
        },
        other => panic!("unexpected: {:?}", other),
    }
    let bytes = drive_on(true, Sources::Discovered, false, outcomes());
    assert_eq!(revision(&bytes), Some("v1".to_string()));

    let listing = drive_on(true, Sources::Discovered, true, vec![ok(b""), ok(b"/r\n"), ok(b"a\xfe\0")]);
    match listing.result {
        Some(Err(RevisionError::Encoding { command })) => {
            assert_eq!(text(&command), "git -C /r ls-files --full-name -z")
        },
        other => panic!("unexpected: {:?}", other),
    }

    let git_dir = drive_on(false, Sources::Listed(Vec::new()), true, vec![ok(b""), ok(b"/r\xff/.git\n")]);
    assert!(git_dir.lines.is_empty());
    match git_dir.result {
        Some(Err(RevisionError::Encoding { command })) => {
            assert_eq!(text(&command), "git rev-parse --absolute-git-dir")
        },
        other => panic!("unexpected: {:?}", other),
    }
}

#[test]
fn text_path_checks() {
    assert_eq!(text_path("/é".as_bytes()), Some("/é".as_bytes().to_vec()));
    assert_eq!(text_path(b"/\xff"), None);
    assert_eq!(checked_path(b"/\xff", false), Some(b"/\xff".to_vec()));
    assert_eq!(checked_path(b"/\xff", true), None);
    assert_eq!(checked_path(b"/a", true), Some(b"/a".to_vec()));
}

#[test]
fn discovered_paths_keep_the_top_level() {
    let trace = drive(
        true,
        Sources::Discovered,
        vec![ok(b""), ok(b"/work tree\n"), ok(b"x\0"), ok(b"/elsewhere/.git/worktrees/w\n"), ok(b"v1\n"), ok(b"")],
    );
    assert_eq!(trace.lines[3], "cargo:rerun-if-changed=/work tree/x");
    assert_eq!(trace.lines[0], "cargo:rerun-if-changed=/elsewhere/.git/worktrees/w/HEAD");
}
