use git_revise::git::diff::{filter_diff, DiffRecord};

fn file(name: &str) -> DiffRecord {
    DiffRecord::File { name: Some(name.to_string()) }
}

fn line(origin: char, content: &str) -> DiffRecord {
    DiffRecord::Line { origin, content: content.to_string() }
}

#[test]
fn excluded_file_lines_are_dropped_whole() {
    let records = vec![
        file("README.md"),
        line('+', "# Title\n"),
        line('-', "old line\n"),
        file("main.go"),
        line('+', "func main() {}\n"),
        line(' ', "package main\n"),
    ];
    let excludes = vec!["README.md".to_string()];
    let out = filter_diff(&records, &excludes);
    assert_eq!(out, "+func main() {}\n package main\n");
    assert!(!out.contains("Title"));
    assert!(!out.contains("old line"));
}

#[test]
fn no_exclusions_keeps_everything_in_order() {
    let records = vec![
        file("a.rs"),
        line('+', "one\n"),
        file("b.rs"),
        line('-', "two\n"),
        line('x', "three\n"),
    ];
    let out = filter_diff(&records, &Vec::new());
    assert_eq!(out, "+one\n-two\n three\n");
}

#[test]
fn exclusion_resets_at_every_boundary() {
    let records = vec![
        file("skip.txt"),
        line('+', "hidden\n"),
        file("keep.txt"),
        line('+', "kept\n"),
        file("skip.txt"),
        line('-', "hidden again\n"),
    ];
    let excludes = vec!["skip.txt".to_string()];
    let out = filter_diff(&records, &excludes);
    assert_eq!(out, "+kept\n");
}

#[test]
fn unnamed_boundary_keeps_previous_exclusion() {
    let records = vec![
        file("skip.txt"),
        DiffRecord::File { name: None },
        line('+', "still hidden\n"),
    ];
    let excludes = vec!["skip.txt".to_string()];
    assert_eq!(filter_diff(&records, &excludes), "");
}

#[test]
fn lines_before_any_boundary_are_kept() {
    let records = vec![line('+', "preamble\n")];
    let excludes = vec!["anything".to_string()];
    assert_eq!(filter_diff(&records, &excludes), "+preamble\n");
}
