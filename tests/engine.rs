use rerep::aggregate::{count_successes, FailureKind, FileError};
use rerep::pattern::Pattern;
use rerep::process::{Config, ConfigError, FileOutcome};
use rerep::resolve::{collect_files, plan_inputs, InputAction, InputKind, InputProbe, WalkEntry};
use rerep::text::{changed_lines, decode_lossy, LineTag};

fn report(pattern: &str) -> Config {
    match Config::new(pattern, None, None, false) {
        Ok(c) => c,
        Err(_) => panic!("pattern should compile"),
    }
}

fn replace(pattern: &str, rep: &str, show_diff: bool) -> Config {
    match Config::new(pattern, None, Some(rep.to_string()), show_diff) {
        Ok(c) => c,
        Err(_) => panic!("pattern should compile"),
    }
}

fn match_count(o: &FileOutcome) -> usize {
    match o {
        FileOutcome::Matched { count, .. } => *count,
        _ => panic!("expected a match report"),
    }
}

fn new_text(o: &FileOutcome) -> String {
    match o {
        FileOutcome::Changed { new_text, .. } => new_text.clone(),
        _ => panic!("expected a change"),
    }
}

#[test]
fn scenario_report_counts_matches_per_file() {
    let c = report("foo");
    let a = c.process_bytes(b"foo bar foo");
    let b = c.process_bytes(b"baz");
    assert_eq!(match_count(&a), 2);
    assert_eq!(match_count(&b), 0);
    assert!(a.is_success());
    assert!(!b.is_success());
    assert_eq!(count_successes(&vec![Ok(a), Ok(b)]), 1);
}

#[test]
fn scenario_replace_rewrites_only_matching_file() {
    let c = replace("foo", "qux", false);
    let a = c.process_bytes(b"foo bar foo");
    let b = c.process_bytes(b"baz");
    assert_eq!(new_text(&a), "qux bar qux");
    assert!(matches!(b, FileOutcome::Unchanged));
    assert_eq!(count_successes(&vec![Ok(a), Ok(b)]), 1);
}

#[test]
fn scenario_missing_input_is_a_warning() {
    let probes = vec![InputProbe { path: Some("no/such/path".to_string()), kind: InputKind::Missing }];
    let actions = plan_inputs(&probes).ok().unwrap();
    assert_eq!(actions.len(), 1);
    assert!(matches!(actions[0], InputAction::Missing(0)));
    assert_eq!(count_successes(&vec![]), 0);
}

#[test]
fn scenario_path_filter_selects_txt_only() {
    let c = match Config::new("foo", Some(r"\.txt$".to_string()), None, false) {
        Ok(c) => c,
        Err(_) => panic!("patterns should compile"),
    };
    assert!(c.path_matches("dir/a.txt"));
    assert!(!c.path_matches("dir/a.log"));
    let mut results = vec![];
    for path in ["dir/a.txt", "dir/a.log"] {
        if c.path_matches(path) {
            results.push(Ok(c.process_bytes(b"foo")));
        } else {
            results.push(Ok(FileOutcome::Skipped));
        }
    }
    assert_eq!(count_successes(&results), 1);
}

#[test]
fn no_path_filter_selects_everything() {
    let c = report("foo");
    assert!(c.path_matches("anything.bin"));
}

#[test]
fn replace_twice_equals_replace_once() {
    let c = replace("foo", "qux", false);
    let once = new_text(&c.process_text("foo bar foo"));
    assert!(matches!(c.process_text(&once), FileOutcome::Unchanged));
}

#[test]
fn changed_text_reads_back_the_same() {
    let c = replace("é", "ü", false);
    let out = new_text(&c.process_text("café é"));
    assert_eq!(out, "cafü ü");
    assert_eq!(decode_lossy(out.as_bytes()), out);
}

#[test]
fn report_with_diff_shows_each_match() {
    let c = match Config::new(r"f\w+", None, None, true) {
        Ok(c) => c,
        Err(_) => panic!("pattern should compile"),
    };
    match c.process_text("foo fab\nfig") {
        FileOutcome::Matched { count, shown } => {
            assert_eq!(count, 3);
            assert_eq!(shown, vec!["foo".to_string(), "fab".to_string(), "fig".to_string()]);
        }
        _ => panic!("expected a match report"),
    }
}

#[test]
fn report_without_diff_shows_only_the_count() {
    match report("o").process_text("foo") {
        FileOutcome::Matched { count, shown } => {
            assert_eq!(count, 2);
            assert!(shown.is_empty());
        }
        _ => panic!("expected a match report"),
    }
}

#[test]
fn replace_with_diff_lists_changed_lines() {
    let c = replace("foo", "qux", true);
    match c.process_text("a\nfoo\nb\n") {
        FileOutcome::Changed { new_text, diff } => {
            assert_eq!(new_text, "a\nqux\nb\n");
            assert_eq!(diff.len(), 2);
            assert_eq!(diff[0].tag, LineTag::Removed);
            assert_eq!(diff[0].text, "foo");
            assert_eq!(diff[1].tag, LineTag::Added);
            assert_eq!(diff[1].text, "qux");
        }
        _ => panic!("expected a change"),
    }
}

#[test]
fn replace_without_diff_has_no_lines() {
    match replace("foo", "qux", false).process_text("foo") {
        FileOutcome::Changed { diff, .. } => assert!(diff.is_empty()),
        _ => panic!("expected a change"),
    }
}

#[test]
fn replacement_equal_to_match_is_unchanged() {
    let c = replace("foo", "foo", false);
    assert!(matches!(c.process_text("foo bar"), FileOutcome::Unchanged));
}

#[test]
fn replacement_expands_capture_groups() {
    let c = replace(r"(\w+)@(\w+)", "$2 at $1", false);
    assert_eq!(new_text(&c.process_text("me@home")), "home at me");
}

#[test]
fn content_pattern_spans_lines() {
    let c = replace(r"a\nb", "X", false);
    assert_eq!(new_text(&c.process_text("a\nb\nc")), "X\nc");
}

#[test]
fn invalid_content_pattern_is_an_error() {
    assert!(matches!(Config::new("(", None, None, false), Err(ConfigError::ContentPattern(_))));
}

#[test]
fn invalid_path_pattern_is_reported_first() {
    let r = Config::new("(", Some("[".to_string()), None, false);
    assert!(matches!(r, Err(ConfigError::PathPattern(_))));
    let r = Config::new("foo", Some("[".to_string()), None, false);
    match r {
        Err(ConfigError::PathPattern(e)) => assert!(!e.message.is_empty()),
        _ => panic!("expected a path pattern error"),
    }
}

#[test]
fn parallel_unless_diff() {
    assert!(report("a").parallel());
    assert!(!replace("a", "b", true).parallel());
}

#[test]
fn lossy_decoding_replaces_invalid_bytes() {
    assert_eq!(decode_lossy(&[0x66, 0xff, 0x6f]), "f\u{FFFD}o");
    assert_eq!(decode_lossy(b"plain"), "plain");
}

#[test]
fn invalid_bytes_still_match() {
    let c = report("o");
    assert_eq!(match_count(&c.process_bytes(&[0xff, b'o', b'o'])), 2);
}

#[test]
fn pattern_operations() {
    let p = match Pattern::new(r"\d+") {
        Ok(p) => p,
        Err(_) => panic!("pattern should compile"),
    };
    assert_eq!(p.as_str(), r"\d+");
    assert!(p.is_match("a1"));
    assert!(!p.is_match("ab"));
    assert_eq!(p.find_all("1 22 x 333"), vec!["1".to_string(), "22".to_string(), "333".to_string()]);
    assert_eq!(p.replace_all("a1b22", "#"), "a#b#");
    assert_eq!(p.replace_all("none", "#"), "none");
}

#[test]
fn changed_lines_skips_kept_lines() {
    let d = changed_lines("x\ny\nz", "x\nY\nz");
    assert_eq!(d.len(), 2);
    assert_eq!(d[0].tag, LineTag::Removed);
    assert_eq!(d[0].text, "y");
    assert_eq!(d[1].tag, LineTag::Added);
    assert_eq!(d[1].text, "Y");
    assert!(changed_lines("same\n", "same\n").is_empty());
}

#[test]
fn no_inputs_walks_current_directory() {
    let actions = plan_inputs(&vec![]).ok().unwrap();
    assert_eq!(actions.len(), 1);
    match &actions[0] {
        InputAction::Walk(d) => assert_eq!(d, "./"),
        _ => panic!("expected a walk"),
    }
}

#[test]
fn inputs_are_planned_in_order() {
    let probes = vec![
        InputProbe { path: Some("f.txt".to_string()), kind: InputKind::File },
        InputProbe { path: Some("dir".to_string()), kind: InputKind::Dir },
        InputProbe { path: Some("fifo".to_string()), kind: InputKind::Other },
        InputProbe { path: None, kind: InputKind::Missing },
    ];
    let actions = plan_inputs(&probes).ok().unwrap();
    assert_eq!(actions.len(), 4);
    assert!(matches!(&actions[0], InputAction::Include(p) if p == "f.txt"));
    assert!(matches!(&actions[1], InputAction::Walk(p) if p == "dir"));
    assert!(matches!(actions[2], InputAction::Unsupported(2)));
    assert!(matches!(actions[3], InputAction::Missing(3)));
}

#[test]
fn existing_input_without_text_path_is_fatal() {
    let probes = vec![
        InputProbe { path: Some("f.txt".to_string()), kind: InputKind::File },
        InputProbe { path: None, kind: InputKind::Dir },
        InputProbe { path: None, kind: InputKind::File },
    ];
    assert_eq!(plan_inputs(&probes).err(), Some(1));
}

#[test]
fn collect_files_keeps_readable_text_files() {
    let entries = vec![
        WalkEntry::Found { is_file: false, path: Some("d".to_string()) },
        WalkEntry::Found { is_file: true, path: Some("d/a.txt".to_string()) },
        WalkEntry::Unreadable,
        WalkEntry::Found { is_file: true, path: None },
        WalkEntry::Found { is_file: true, path: Some("d/b.log".to_string()) },
    ];
    let mut files = vec!["first".to_string()];
    let not_text = collect_files(&entries, &mut files);
    assert_eq!(not_text, vec![3]);
    assert_eq!(files, vec!["first".to_string(), "d/a.txt".to_string(), "d/b.log".to_string()]);
}

#[test]
fn failures_do_not_count() {
    let c = replace("a", "b", false);
    let results = vec![
        Ok(c.process_text("a")),
        Err(FileError { path: "x".to_string(), kind: FailureKind::Read, detail: "denied".to_string() }),
        Err(FileError { path: "y".to_string(), kind: FailureKind::Write, detail: "full".to_string() }),
        Ok(FileOutcome::Skipped),
        Ok(c.process_text("c")),
    ];
    assert_eq!(count_successes(&results), 1);
}

#[test]
fn non_text_paths_are_reported_not_counted() {
    let entries = vec![
        WalkEntry::Found { is_file: true, path: None },
        WalkEntry::Found { is_file: false, path: None },
        WalkEntry::Found { is_file: true, path: Some("ok.txt".to_string()) },
        WalkEntry::Found { is_file: true, path: None },
    ];
    let mut files = vec![];
    let not_text = collect_files(&entries, &mut files);
    assert_eq!(not_text, vec![0, 3]);
    assert_eq!(files, vec!["ok.txt".to_string()]);
    let c = report("o");
    let mut results: Vec<Result<FileOutcome, FileError>> = not_text
        .iter()
        .map(|_| Err(FileError { path: "?".to_string(), kind: FailureKind::PathNotText, detail: String::new() }))
        .collect();
    results.push(Ok(c.process_text("ok")));
    assert_eq!(count_successes(&results), 1);
}

#[test]
fn no_matches_anywhere_gives_zero_total() {
    let c = report("zzz");
    let results = vec![Ok(c.process_text("a")), Ok(c.process_text("b")), Ok(c.process_text(""))];
    assert_eq!(count_successes(&results), 0);
}
