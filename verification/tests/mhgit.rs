//! Library-level tests: parser determinism, defaults, error policy, and the
//! edge cases of the report format.

use mhgit::Entry;
use mhgit::Status;

#[test]
fn test_mhgit_unit() {
    assert_eq!(2 + 2, 4);
}

#[test]
fn parse_is_deterministic() {
    let out = "# branch.oid dbcbc3608451f09fffef8f31a2a54da54aa13a87
# branch.head master
? LICENSE~
";
    let first = Status::parse(out).expect("first parse failed");
    let second = Status::parse(out).expect("second parse failed");
    assert_eq!(first, second);
}

#[test]
fn empty_input_is_default() {
    let status = Status::parse("").expect("empty input must parse");
    assert_eq!(status, Status::new());
    assert_eq!(status, Status::default());
    // A lone newline leaves one empty line, which is skipped.
    let status = Status::parse("\n").expect("newline-only input must parse");
    assert_eq!(status, Status::default());
}

#[test]
fn unknown_marker_fails() {
    let err = Status::parse("0 foo.txt").unwrap_err();
    assert_eq!(err.raw_line, "0 foo.txt");
    assert_eq!(err.reason, "unknown line prefix");
    // Also when the bad line follows good ones.
    let err = Status::parse("# branch.head master\n0 foo.txt\n").unwrap_err();
    assert_eq!(err.raw_line, "0 foo.txt");
}

#[test]
fn upstream_accessors_follow_upstream_name() {
    // No upstream reported: all three accessors are None.
    let status = Status::parse("# branch.oid abc\n# branch.head master\n").unwrap();
    assert_eq!(status.upstream_branch(), None);
    assert_eq!(status.upstream_behind(), None);
    assert_eq!(status.upstream_ahead(), None);

    // An upstream alone does not set the counts: they read as zero.
    let status = Status::parse("# branch.upstream origin/master\n").unwrap();
    assert_eq!(status.upstream_branch(), Some("origin/master"));
    assert_eq!(status.upstream_behind(), Some(0));
    assert_eq!(status.upstream_ahead(), Some(0));
}

#[test]
fn ahead_behind_counts() {
    let status = Status::parse("# branch.upstream origin/master\n# branch.ab +12 -34\n").unwrap();
    assert_eq!(status.upstream_ahead(), Some(12));
    assert_eq!(status.upstream_behind(), Some(34));
}

#[test]
fn malformed_ahead_behind() {
    // Missing sign, non-numeric count, trailing text, and an overflowing
    // count are all structural violations.
    assert!(Status::parse("# branch.ab 1 -0").is_err());
    assert!(Status::parse("# branch.ab +1 0").is_err());
    assert!(Status::parse("# branch.ab +1 -x").is_err());
    assert!(Status::parse("# branch.ab + -0").is_err());
    assert!(Status::parse("# branch.ab +1 -0 extra").is_err());
    assert!(Status::parse("# branch.ab +4294967296 -0").is_err());
    let err = Status::parse("# branch.ab -1 +0").unwrap_err();
    assert_eq!(err.reason, "bad status format");
    // The largest representable counts are accepted.
    let status = Status::parse("# branch.ab +4294967295 -4294967295\n").unwrap();
    assert_eq!(status.upstream_ahead(), None);
    let status = Status::parse(
        "# branch.upstream o\n# branch.ab +4294967295 -0\n",
    )
    .unwrap();
    assert_eq!(status.upstream_ahead(), Some(4294967295));
}

#[test]
fn unknown_branch_info() {
    let err = Status::parse("# branch.foo x").unwrap_err();
    assert_eq!(err.reason, "unknown branch info");
    assert_eq!(err.raw_line, "# branch.foo x");
}

#[test]
fn truncated_entries_fail() {
    let err = Status::parse("1 A. N...").unwrap_err();
    assert_eq!(err.reason, "bad entry format");
    assert!(Status::parse("1 A. N... 00000").is_err());
    assert!(Status::parse("1 ").is_err());
    assert!(Entry::parse("1").is_err());
    assert!(Entry::parse("").is_err());
    // A fixed-width field not followed by its separating space.
    assert!(Entry::parse(
        "1 A.XN... 000000 100644 100644 0000000000000000000000000000000000000000 e47c0835424019d3cb9f3daf768eafbb2fd42044 f"
    )
    .is_err());
}

#[test]
fn similarity_score_bounds() {
    let prefix = "2 R. N... 100644 100644 100644 288d723fce8678bcdcb40bfa844a6f815d625661 288d723fce8678bcdcb40bfa844a6f815d625661 R";
    let line = format!("{}255 LICENSE\tLICENSE~", prefix);
    let e = Entry::parse(&line).expect("score 255 is representable");
    assert_eq!(e.score(), 255);
    let line = format!("{}256 LICENSE\tLICENSE~", prefix);
    assert!(Entry::parse(&line).is_err());
    let line = format!("{}999 LICENSE\tLICENSE~", prefix);
    assert!(Entry::parse(&line).is_err());
    let line = format!("{}xy LICENSE\tLICENSE~", prefix);
    assert!(Entry::parse(&line).is_err());
    let line = format!("{} LICENSE\tLICENSE~", prefix);
    assert!(Entry::parse(&line).is_err());
}

#[test]
fn rename_paths_split() {
    let e = Entry::parse(
        "2 R. N... 100644 100644 100644 288d723fce8678bcdcb40bfa844a6f815d625661 288d723fce8678bcdcb40bfa844a6f815d625661 R100 new\told\tname",
    )
    .unwrap();
    assert_eq!(e.pathname(), "new");
    // The original path is the verbatim remainder of the line.
    assert_eq!(e.orig_path(), "old\tname");
}

#[test]
fn unmerged_entries_accumulate() {
    let out = "# branch.head master
u UU N... 000000 100644 100644 100644 0000000000000000000000000000000000000000 288d723fce8678bcdcb40bfa844a6f815d625661 288d723fce8678bcdcb40bfa844a6f815d625661 conflict.txt
";
    let status = Status::parse(out).unwrap();
    assert_eq!(status.unmerged.len(), 1);
    assert!(status.unmerged[0].is_unmerged());
    assert_eq!(status.unmerged[0].pathname(), "conflict.txt");
    assert!(status.changed.is_empty());
}

#[test]
fn blank_lines_are_skipped() {
    let status = Status::parse("\n\n? a.txt\n\n").unwrap();
    assert_eq!(status.untracked, vec!["a.txt".to_string()]);
}

#[test]
fn carriage_return_line_endings() {
    let status = Status::parse("# branch.head master\r\n? file.txt\r\n").unwrap();
    assert_eq!(status.branch_head(), "master");
    assert_eq!(status.untracked, vec!["file.txt".to_string()]);
}

#[test]
fn untracked_path_kept_verbatim() {
    let status = Status::parse("? my file.txt\n! their file.txt\n").unwrap();
    assert_eq!(status.untracked, vec!["my file.txt".to_string()]);
    assert_eq!(status.ignored, vec!["their file.txt".to_string()]);
}

#[test]
fn marker_without_separator_fails() {
    assert!(Status::parse("?x").is_err());
    assert!(Status::parse("?").is_err());
    assert!(Entry::parse("?x").is_err());
    assert!(Status::parse("#branch.head master").is_err());
}

#[test]
fn header_token_fields() {
    // Header values are single whitespace-delimited tokens.
    let status = Status::parse("# branch.oid abc\n# branch.head my-branch\n").unwrap();
    assert_eq!(status.branch_oid(), "abc");
    assert_eq!(status.branch_head(), "my-branch");
}
