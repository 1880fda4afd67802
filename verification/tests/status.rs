//! Tests for the status-report parser.

use mhgit::Entry;
use mhgit::Stage;
use mhgit::Status;

#[test]
fn entry() {
    let entry = Entry::new();
    assert!(
        entry == Entry::default(),
        "Entry::new() doesn't return a default entry"
    );
}

#[test]
fn entry_parsing() {
    // Changed 1

    let changed1 = "1 A. N... 000000 100644 100644 0000000000000000000000000000000000000000 df6d704ad8308efda4715321c69c9aff1fc95e0e TODO.md";
    let e = Entry::parse(changed1).expect("failed to parse changed1 entry");
    assert_eq!(e.format, '1', "Changed entry 1 not parsed correctly");
    assert_eq!(e.modified_state(), ('A', '.'));
    assert!(!e.is_submodule());
    assert!(!e.sub_commit_changed());
    assert!(!e.sub_tracked_changes());
    assert!(!e.sub_untracked_changes());
    assert_eq!(e.file_mode_head(), "000000");
    assert_eq!(e.file_mode_index(), "100644");
    assert_eq!(e.file_mode_worktree(), "100644");
    assert_eq!(e.object_name_head(), "0000000000000000000000000000000000000000");
    assert_eq!(e.object_name_index(), "df6d704ad8308efda4715321c69c9aff1fc95e0e");
    assert_eq!(e.pathname(), "TODO.md");
    assert_eq!(e.score(), 0);
    assert_eq!(e.orig_path(), "");
    assert_eq!(e.stage1, Stage::default());
    assert_eq!(e.stage2, Stage::default());
    assert_eq!(e.stage3, Stage::default());

    // Changed 2

    let changed2 = "1 MD SCMU 000000 100644 100644 0000000000000000000000000000000000000000 df6d704ad8308efda4715321c69c9aff1fc95e0e TODO.md";
    let e = Entry::parse(changed2).expect("failed to parse changed2 entry");
    assert_eq!(e.format, '1', "Changed entry 2 not parsed correctly");
    assert_eq!(e.modified_state(), ('M', 'D'));
    assert!(e.is_submodule());
    assert!(e.sub_commit_changed());
    assert!(e.sub_tracked_changes());
    assert!(e.sub_untracked_changes());
    assert_eq!(e.file_mode_head(), "000000");
    assert_eq!(e.file_mode_index(), "100644");
    assert_eq!(e.file_mode_worktree(), "100644");
    assert_eq!(e.object_name_head(), "0000000000000000000000000000000000000000");
    assert_eq!(e.object_name_index(), "df6d704ad8308efda4715321c69c9aff1fc95e0e");
    assert_eq!(e.pathname(), "TODO.md");

    // Renamed

    let renamed = "2 R. N... 100644 100644 100644 288d723fce8678bcdcb40bfa844a6f815d625661 288d723fce8678bcdcb40bfa844a6f815d625661 R100 LICENSE\tLICENSE~";
    let e = Entry::parse(renamed).expect("failed to parse renamed entry");
    assert_eq!(e.format, '2', "Renamed entry not parsed correctly");
    assert_eq!(e.modified_state(), ('R', '.'));
    assert!(e.is_renamed());
    assert!(!e.is_copied());
    assert_eq!(e.file_mode_head(), "100644");
    assert_eq!(e.file_mode_index(), "100644");
    assert_eq!(e.file_mode_worktree(), "100644");
    assert_eq!(e.object_name_head(), "288d723fce8678bcdcb40bfa844a6f815d625661");
    assert_eq!(e.object_name_index(), "288d723fce8678bcdcb40bfa844a6f815d625661");
    assert_eq!(e.score(), 100);
    assert_eq!(e.pathname(), "LICENSE");
    assert_eq!(e.orig_path(), "LICENSE~");

    // Unmerged

    let unmerged = "u MM N... 000000 100644 100644 100755 0000000000000000000000000000000000000000 288d723fce8678bcdcb40bfa844a6f815d625661 288d723fce8678bcdcb40bfa844a6f815d625661 LICENSE";
    let e = Entry::parse(unmerged).expect("failed to parse unmerged entry");
    assert_eq!(e.format, 'u', "Unmerged entry not parsed correctly");
    assert_eq!(e.modified_state(), ('M', 'M'));
    assert!(e.is_unmerged());
    assert_eq!(e.file_mode_head(), "");
    assert_eq!(e.file_mode_index(), "");
    assert_eq!(e.file_mode_worktree(), "100755");
    assert_eq!(e.pathname(), "LICENSE");
    assert_eq!(
        e.stage1,
        Stage {
            object_id: String::from("0000000000000000000000000000000000000000"),
            mode: String::from("000000"),
        }
    );
    assert_eq!(
        e.stage2,
        Stage {
            object_id: String::from("288d723fce8678bcdcb40bfa844a6f815d625661"),
            mode: String::from("100644"),
        }
    );
    assert_eq!(
        e.stage3,
        Stage {
            object_id: String::from("288d723fce8678bcdcb40bfa844a6f815d625661"),
            mode: String::from("100644"),
        }
    );

    // Untracked

    let untracked = "? ufile.txt";
    let e = Entry::parse(untracked).expect("failed to parse untracked entry");
    assert_eq!(e.format, '?', "Untracked entry not parsed correctly");
    assert!(e.is_untracked());
    assert_eq!(e.pathname(), "ufile.txt");

    // Ignored

    let ignored = "! idir/";
    let e = Entry::parse(ignored).expect("failed to parse ignored entry");
    assert_eq!(e.format, '!', "Ignored entry not parsed correctly");
    assert!(e.is_ignored());
    assert_eq!(e.pathname(), "idir/");
}

#[test]
#[should_panic(expected = "unknown entry format identifier (should be one of: 1 2 u ? !)")]
fn invalid_entry_parsing() {
    Entry::parse("0 Foo/Bar.txt").unwrap();
}

#[test]
fn status() {
    let out = "# branch.oid dbcbc3608451f09fffef8f31a2a54da54aa13a87
# branch.head master
# branch.upstream origin/master
# branch.ab +1 -0
1 A. N... 000000 100644 100644 0000000000000000000000000000000000000000 e47c0835424019d3cb9f3daf768eafbb2fd42044 Cargo.toml
1 .M N... 100644 100644 100644 567578ae6981902a62d42f69599a1101e33a0bba 567578ae6981902a62d42f69599a1101e33a0bba README.md
? LICENSE~
? Makefile
";

    assert_eq!(
        Status::new(),
        Status::default(),
        "Status::new is not default"
    );

    let status = Status::parse(out).expect("failed to create status from output text");

    // Entry 1
    let entry1 = &status.changed[0];
    assert_eq!(entry1.format, '1', "Status not parsed correctly");
    assert_eq!(entry1.modified_state(), ('A', '.'));
    assert_eq!(entry1.file_mode_head(), "000000");
    assert_eq!(entry1.file_mode_index(), "100644");
    assert_eq!(entry1.file_mode_worktree(), "100644");
    assert_eq!(entry1.object_name_head(), "0000000000000000000000000000000000000000");
    assert_eq!(entry1.object_name_index(), "e47c0835424019d3cb9f3daf768eafbb2fd42044");
    assert_eq!(entry1.pathname(), "Cargo.toml");

    // Entry 2
    let entry2 = &status.changed[1];
    assert_eq!(entry2.format, '1');
    assert_eq!(entry2.modified_state(), ('.', 'M'));
    assert_eq!(entry2.file_mode_head(), "100644");
    assert_eq!(entry2.file_mode_index(), "100644");
    assert_eq!(entry2.file_mode_worktree(), "100644");
    assert_eq!(entry2.object_name_head(), "567578ae6981902a62d42f69599a1101e33a0bba");
    assert_eq!(entry2.object_name_index(), "567578ae6981902a62d42f69599a1101e33a0bba");
    assert_eq!(entry2.pathname(), "README.md");

    assert_eq!(status.changed.len(), 2);
    assert!(status.renamed.is_empty());
    assert!(status.unmerged.is_empty());
    assert_eq!(
        status.untracked,
        vec!["LICENSE~".to_string(), "Makefile".to_string()]
    );
    assert!(status.ignored.is_empty());

    // Methods
    assert_eq!(status.branch_oid(), "dbcbc3608451f09fffef8f31a2a54da54aa13a87");
    assert_eq!(status.branch_head(), "master");
    assert_eq!(status.upstream_branch(), Some("origin/master"));
    // In `# branch.ab +1 -0` the +-prefixed number is the ahead count and the
    // --prefixed number the behind count.
    assert_eq!(status.upstream_ahead(), Some(1));
    assert_eq!(status.upstream_behind(), Some(0));
}
