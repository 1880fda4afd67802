//! Tests for the git subcommand argument builders.

use mhgit::commands::AddOptions;
use mhgit::commands::CloneOptions;
use mhgit::commands::CommitOptions;
use mhgit::commands::NotesOptions;
use mhgit::commands::PullOptions;
use mhgit::commands::PushOptions;
use mhgit::commands::RemoteOptions;
use mhgit::commands::TagOptions;

#[test]
fn add() {
    assert_eq!(AddOptions::new().git_args(), vec!["add"]);
    assert_eq!(
        AddOptions::new()
            .all(false)
            .chmod(false)
            .pathspec("foobar")
            .git_args(),
        vec!["add", "--no-all", "--chmod=-x", "foobar"]
    );
    assert_eq!(
        AddOptions::new()
            .all(true)
            .chmod(true)
            .pathspecs(&["foo", "bar"])
            .git_args(),
        vec!["add", "--all", "--chmod=+x", "foo", "bar"]
    );
}

#[test]
fn commit() {
    assert_eq!(CommitOptions::new().git_args(), vec!["commit", "-q"]);
    assert_eq!(
        CommitOptions::new()
            .message("tull")
            .all(true)
            .allow_empty(true)
            .amend(true)
            .file("Makefile")
            .files(&["foo.txt", "bar.txt"])
            .git_args(),
        vec![
            "commit",
            "-q",
            "-m",
            "tull",
            "--all",
            "--allow-empty",
            "--amend",
            "Makefile",
            "foo.txt",
            "bar.txt"
        ]
    );
}

#[test]
fn notes() {
    assert_eq!(
        NotesOptions::add()
            .message("test")
            .object("HEAD")
            .git_args(),
        vec!["notes", "add", "-m", "test", "HEAD"]
    );
    assert_eq!(
        NotesOptions::append()
            .message("test")
            .object("HEAD")
            .git_args(),
        vec!["notes", "append", "-m", "test", "HEAD"]
    );
    assert_eq!(
        NotesOptions::remove().object("HEAD").git_args(),
        vec!["notes", "remove", "HEAD"]
    );
}

#[test]
fn pull() {
    assert_eq!(PullOptions::new().git_args(), vec!["pull", "-q"]);
    assert_eq!(
        PullOptions::new()
            .allow_unrelated(true)
            .remote("origin")
            .refspec("master")
            .git_args(),
        vec!["pull", "-q", "--allow-unrelated", "origin", "master"]
    );
}

#[test]
fn push() {
    assert_eq!(PushOptions::new().git_args(), vec!["push", "-q"]);
    assert_eq!(
        PushOptions::new()
            .all(true)
            .tags(true)
            .force(true)
            .set_upstream(true)
            .remote("origin")
            .refspec("master")
            .git_args(),
        vec![
            "push",
            "-q",
            "--all",
            "--tags",
            "--force",
            "--set-upstream",
            "origin",
            "master"
        ]
    );
}

#[test]
fn remote() {
    assert_eq!(
        RemoteOptions::add()
            .master("master")
            .tags(true)
            .name("origin")
            .url("git://myrepo.com")
            .git_args(),
        vec![
            "remote",
            "add",
            "-m",
            "master",
            "--tags",
            "origin",
            "git://myrepo.com"
        ]
    );
}

#[test]
fn tag() {
    assert_eq!(
        TagOptions::add()
            .msg("testen")
            .tagname("v1.0")
            .object("HEAD")
            .git_args(),
        vec!["tag", "-m", "testen", "v1.0", "HEAD"]
    );
    assert_eq!(
        TagOptions::delete().tagname("v1.0").git_args(),
        vec!["tag", "-d", "v1.0"]
    );
}

#[test]
fn push_refspecs() {
    assert_eq!(
        PushOptions::new().refspecs(&["master", "dev"]).git_args(),
        vec!["push", "-q", "master", "dev"]
    );
}

#[test]
fn pull_refspecs() {
    assert_eq!(
        PullOptions::new().refspecs(&["master", "dev"]).git_args(),
        vec!["pull", "-q", "master", "dev"]
    );
}

#[test]
fn remote_no_tags() {
    assert_eq!(
        RemoteOptions::add()
            .tags(false)
            .name("origin")
            .url("git://myrepo.com")
            .git_args(),
        vec!["remote", "add", "--no-tags", "origin", "git://myrepo.com"]
    );
}

#[test]
fn clone_args() {
    assert_eq!(
        CloneOptions::new().git_args("https://repo.com/foobar.git"),
        vec!["clone", "https://repo.com/foobar.git"]
    );
    assert_eq!(
        CloneOptions::new()
            .origin("upstream")
            .branch("dev")
            .dir("foobar")
            .git_args("https://repo.com/foobar.git"),
        vec![
            "clone",
            "--branch",
            "dev",
            "--origin",
            "upstream",
            "https://repo.com/foobar.git",
            "foobar"
        ]
    );
}
