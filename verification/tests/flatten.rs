use flatten_files::FlattenError;
use flatten_files::aggregate::{aggregate, get_lines};
use flatten_files::config::{Config, MatchRuleSet, Project};
use flatten_files::extractor::{Candidate, FileData, entry_matches, format_timestamp, render_block};
use flatten_files::matcher::resolve;
use flatten_files::paths::{extension_of, file_name_of};

fn s(x: &str) -> String {
    x.to_string()
}

fn strings(xs: &[&str]) -> Vec<String> {
    xs.iter().map(|x| x.to_string()).collect()
}

fn sample_config() -> Config {
    Config {
        general_files: strings(&["Makefile"]),
        projects: vec![
            Project {
                project_type: s("python"),
                file_types: strings(&["py"]),
                file_names: strings(&["requirements.txt"]),
            },
            Project {
                project_type: s("rust"),
                file_types: strings(&["rs", "toml"]),
                file_names: strings(&["Cargo.lock"]),
            },
        ],
    }
}

fn file_candidate(path: &str, secs: i64, lines: &[&str]) -> Candidate {
    Candidate {
        path: s(path),
        is_file: true,
        data: Some(FileData { mtime_secs: secs, mtime_nanos: 0, lines: strings(lines) }),
    }
}

fn dir_candidate(path: &str) -> Candidate {
    Candidate { path: s(path), is_file: false, data: None }
}

#[test]
fn resolve_selected_valid() {
    let config = sample_config();
    let selector = s("rust");
    let rules = resolve(&config, Some(&selector)).unwrap();
    assert_eq!(rules.file_types, strings(&["rs", "toml"]));
    assert_eq!(rules.file_names, strings(&["Cargo.lock", "Makefile"]));
}

#[test]
fn resolve_selected_missing() {
    let config = sample_config();
    let selector = s("haskell");
    let r = resolve(&config, Some(&selector));
    assert_eq!(r.unwrap_err(), FlattenError::ConfigError);
}

#[test]
fn resolve_without_selector_unions_all_projects() {
    let config = sample_config();
    let rules = resolve(&config, None).unwrap();
    assert_eq!(rules.file_types, strings(&["py", "rs", "toml"]));
    assert_eq!(rules.file_names, strings(&["requirements.txt", "Cargo.lock", "Makefile"]));
}

#[test]
fn file_name_and_extension_model() {
    assert_eq!(file_name_of(&s("src/deep/main.rs")), s("main.rs"));
    assert_eq!(file_name_of(&s("README")), s("README"));
    assert_eq!(extension_of(&s("src/main.rs")), Some(s("rs")));
    assert_eq!(extension_of(&s("archive.tar.gz")), Some(s("gz")));
    assert_eq!(extension_of(&s("dir/.gitignore")), None);
    assert_eq!(extension_of(&s("README")), None);
}

#[test]
fn match_by_extension_or_name_only() {
    let rules = MatchRuleSet {
        file_types: strings(&["py"]),
        file_names: strings(&["README"]),
    };
    assert!(entry_matches(&s("pkg/a.py"), true, &rules));
    assert!(entry_matches(&s("pkg/README"), true, &rules));
    assert!(!entry_matches(&s("pkg/notes.md"), true, &rules));
    assert!(!entry_matches(&s("pkg/a.py"), false, &rules));
}

#[test]
fn timestamp_epoch_rendering() {
    let ts = format_timestamp(0, 0).unwrap();
    assert_eq!(ts, s("1970-01-01T00:00:00+00:00"));
}

#[test]
fn timestamp_known_instant() {
    let ts = format_timestamp(1714564800, 0).unwrap();
    assert_eq!(ts, s("2024-05-01T12:00:00+00:00"));
}

#[test]
fn timestamp_out_of_calendar_range() {
    assert_eq!(format_timestamp(i64::MAX, 0), None);
}

#[test]
fn block_brackets_content_exactly() {
    let ts = format_timestamp(0, 0).unwrap();
    let content = strings(&["fn main() {}", "", "// done"]);
    let block = render_block(&s("src/main.rs"), &ts, &content);
    assert_eq!(block.len(), content.len() + 2);
    assert_eq!(block[0], s("<file name=\"src/main.rs\" last_modified=\"1970-01-01T00:00:00+00:00\">"));
    assert_eq!(&block[1..4], &content[..]);
    assert_eq!(block[4], s("</file>"));
}

#[test]
fn scenario_single_python_file() {
    let config = Config {
        general_files: strings(&[]),
        projects: vec![Project {
            project_type: s("python"),
            file_types: strings(&["py"]),
            file_names: strings(&[]),
        }],
    };
    let cands = vec![dir_candidate("root"), file_candidate("root/a.py", 0, &["x=1"])];
    let lines = get_lines(&cands, None, &config).unwrap();
    assert_eq!(
        lines,
        strings(&[
            "<file name=\"root/a.py\" last_modified=\"1970-01-01T00:00:00+00:00\">",
            "x=1",
            "</file>",
        ])
    );
}

#[test]
fn scenario_filename_rule_only() {
    let config = Config {
        general_files: strings(&[]),
        projects: vec![Project {
            project_type: s("docs"),
            file_types: strings(&[]),
            file_names: strings(&["README"]),
        }],
    };
    let cands = vec![
        file_candidate("root/notes.md", 0, &["note"]),
        file_candidate("root/README", 0, &["hello"]),
    ];
    let lines = get_lines(&cands, None, &config).unwrap();
    assert_eq!(
        lines,
        strings(&[
            "<file name=\"root/README\" last_modified=\"1970-01-01T00:00:00+00:00\">",
            "hello",
            "</file>",
        ])
    );
}

#[test]
fn scenario_unknown_project_type_fails() {
    let config = sample_config();
    let cands = vec![file_candidate("root/a.py", 0, &["x=1"])];
    let selector = s("go");
    let r = get_lines(&cands, Some(&selector), &config);
    assert_eq!(r.unwrap_err(), FlattenError::ConfigError);
}

#[test]
fn scenario_vanished_file_aborts_run() {
    let config = sample_config();
    let selector = s("python");
    let vanished = Candidate { path: s("root/b.py"), is_file: true, data: None };
    let cands = vec![file_candidate("root/a.py", 0, &["x=1"]), vanished];
    let r = get_lines(&cands, Some(&selector), &config);
    assert_eq!(r.unwrap_err(), FlattenError::IoError);
}

#[test]
fn unmatched_entries_never_abort() {
    let config = sample_config();
    let selector = s("python");
    let unreadable_dir = dir_candidate("root/sub");
    let unmatched = Candidate { path: s("root/notes.md"), is_file: true, data: None };
    let cands = vec![unreadable_dir, unmatched, file_candidate("root/a.py", 7, &["x=1"])];
    let lines = get_lines(&cands, Some(&selector), &config).unwrap();
    assert_eq!(lines.len(), 3);
    assert_eq!(lines[1], s("x=1"));
}

#[test]
fn aggregation_is_deterministic() {
    let config = sample_config();
    let mk = || {
        vec![
            file_candidate("root/a.py", 11, &["a", "b"]),
            file_candidate("root/requirements.txt", 22, &["serde"]),
            file_candidate("root/Makefile", 33, &["all:"]),
        ]
    };
    let first = get_lines(&mk(), None, &config).unwrap();
    let second = get_lines(&mk(), None, &config).unwrap();
    assert_eq!(first, second);
}

#[test]
fn aggregate_preserves_candidate_order() {
    let rules = MatchRuleSet { file_types: strings(&["py"]), file_names: strings(&[]) };
    let cands = vec![
        file_candidate("z/last.py", 0, &["z"]),
        file_candidate("a/first.py", 0, &["a"]),
    ];
    let lines = aggregate(&cands, &rules).unwrap();
    assert_eq!(lines.len(), 6);
    assert!(lines[0].contains("z/last.py"));
    assert!(lines[3].contains("a/first.py"));
}

#[test]
fn general_files_apply_with_selector() {
    let config = sample_config();
    let selector = s("rust");
    let cands = vec![file_candidate("root/Makefile", 0, &["all:"])];
    let lines = get_lines(&cands, Some(&selector), &config).unwrap();
    assert_eq!(lines.len(), 3);
    assert_eq!(lines[1], s("all:"));
}
