use gitu::git::{
    checkout_new_branch_cmd, diff, log, log_recent, rebase_interactive_cmd, reset_color_codes,
    show_refs, show_summary, stage_file_cmd, status,
};
use gitu::refs::{parse_show_refs, split_lines, RefLine};

#[test]
fn commands_have_expected_arguments() {
    assert_eq!(status().args, vec!["status", "--porcelain", "--branch"]);
    assert_eq!(log_recent().args, vec!["log", "-n", "5", "--oneline", "--decorate", "--color"]);
    assert_eq!(
        show_summary(&["abc".to_string()]).args,
        vec!["show", "--summary", "--decorate", "--color", "abc"]
    );
    assert_eq!(diff(&["--cached".to_string(), "x".to_string()]).args, vec!["diff", "--cached", "x"]);
    assert_eq!(log(&[]).args, vec!["log", "--oneline", "--decorate", "--color"]);
    assert_eq!(
        show_refs().args,
        vec!["for-each-ref", "--sort", "-creatordate", "--format", "%(refname) %(upstream) %(subject)", "refs/heads"]
    );
    assert_eq!(rebase_interactive_cmd("HEAD~2").args, vec!["rebase", "-i", "--autostash", "HEAD~2"]);
}

#[test]
fn display_joins_with_spaces() {
    assert_eq!(stage_file_cmd("a b.txt").display(), "git add a b.txt");
    assert_eq!(checkout_new_branch_cmd("feature-x").display(), "git checkout -b feature-x");
}

#[test]
fn bare_resets_are_completed() {
    assert_eq!(reset_color_codes(b"\x1b[mfoo\x1b[31mbar\x1b[m"), b"\x1b[0mfoo\x1b[31mbar\x1b[0m".to_vec());
    assert_eq!(reset_color_codes(b"plain"), b"plain".to_vec());
    assert_eq!(reset_color_codes(b""), Vec::<u8>::new());
    assert_eq!(reset_color_codes(b"\x1b["), b"\x1b[".to_vec());
}

#[test]
fn lines_drop_trailing_empty() {
    assert_eq!(split_lines(b"a\nb\n"), vec![b"a".to_vec(), b"b".to_vec()]);
    assert_eq!(split_lines(b"a\n\nb"), vec![b"a".to_vec(), b"".to_vec(), b"b".to_vec()]);
    assert_eq!(split_lines(b""), Vec::<Vec<u8>>::new());
}

#[test]
fn branch_list_is_parsed() {
    let out = b"refs/heads/main refs/remotes/origin/main Initial commit\nrefs/heads/wip  work in progress\n";
    assert_eq!(
        parse_show_refs(out),
        Some(vec![
            RefLine {
                local: b"main".to_vec(),
                remote: b"origin/main".to_vec(),
                subject: b"Initial commit".to_vec()
            },
            RefLine { local: b"wip".to_vec(), remote: vec![], subject: b"work in progress".to_vec() },
        ])
    );
}

#[test]
fn malformed_branch_list_is_refused() {
    assert_eq!(parse_show_refs(b"refs/heads/main\n"), None);
    assert_eq!(parse_show_refs(b"refs/tags/v1 x y\n"), None);
    assert_eq!(parse_show_refs(b""), Some(vec![]));
}
