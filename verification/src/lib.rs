//! A small git helper library: builders for git subcommand argument lists and
//! a parser for the machine-readable status report format.

pub mod commands;
pub mod scan;
pub mod status;

pub use status::Entry;
pub use status::MalformedLine;
pub use status::Stage;
pub use status::Status;

use vstd::prelude::*;
use crate::scan::views_of;

verus! {

/// Selects whether the output of a git command is piped back to the caller or
/// printed to the terminal.
#[derive(Debug, PartialEq, Eq, Hash)]
pub enum GitOut {
    Print,
    Pipe,
}

impl Default for GitOut {
    fn default() -> (r: Self)
        ensures
            r == GitOut::Pipe,
    {
        GitOut::Pipe
    }
}

/// The mathematical content of a [`Repository`] handle.
pub ghost struct RepositoryView {
    pub location: Option<Seq<char>>,
    pub stdout: GitOut,
}

/// A handle to a git repository: an optional working-directory location and
/// the output mode commands run with.
#[derive(Debug, Hash)]
pub struct Repository {
    location: Option<String>,
    stdout: GitOut,
}

impl View for Repository {
    type V = RepositoryView;

    closed spec fn view(&self) -> RepositoryView {
        RepositoryView {
            location: match self.location {
                Some(l) => Some(l@),
                None => None,
            },
            stdout: self.stdout,
        }
    }
}

impl Repository {
    /// A repository handle for the current directory, with piped output.
    pub fn new() -> (r: Repository)
        ensures
            r@.location is None,
            r@.stdout == GitOut::Pipe,
    {
        Repository { location: None, stdout: GitOut::Pipe }
    }

    /// A repository handle at the given location, with piped output. The
    /// caller resolves the path; the handle only carries it.
    pub fn at(location: &str) -> (r: Repository)
        ensures
            r@.location == Some(location@),
            r@.stdout == GitOut::Pipe,
    {
        Repository { location: Some(location.to_owned()), stdout: GitOut::Pipe }
    }

    /// The location the handle was created at, if any.
    pub fn location(&self) -> (r: Option<&str>)
        ensures
            match r {
                Some(l) => self@.location == Some(l@),
                None => self@.location is None,
            },
    {
        match &self.location {
            Some(l) => Some(l.as_str()),
            None => None,
        }
    }

    /// Whether command output is piped back to the caller rather than
    /// printed to the terminal.
    pub fn piped(&self) -> (r: bool)
        ensures
            r == (self@.stdout == GitOut::Pipe),
    {
        matches!(self.stdout, GitOut::Pipe)
    }

    /// Configure whether git output is piped or printed.
    pub fn gitout(&mut self, val: GitOut) -> (r: &mut Repository)
        ensures
            r@ == (RepositoryView { stdout: val, ..old(self)@ }),
            *final(self) == *final(r),
    {
        self.stdout = val;
        self
    }

    /// The argument list for `git add` run with the --all option.
    pub fn add(&self) -> (args: Vec<&'static str>)
        ensures
            views_of(args@) == seq!["add"@, "--all"@],
    {
        let mut args: Vec<&'static str> = Vec::new();
        args.push("add");
        args.push("--all");
        proof {
            assert(views_of(args@) =~= seq!["add"@, "--all"@]);
        }
        args
    }

    /// The argument list for `git commit` run quietly with the given commit
    /// message and the --allow-empty option.
    pub fn commit<'a>(&self, msg: &'a str) -> (args: Vec<&'a str>)
        ensures
            views_of(args@) == seq!["commit"@, "-m"@, msg@, "-q"@, "--allow-empty"@],
    {
        let mut args: Vec<&'a str> = Vec::new();
        args.push("commit");
        args.push("-m");
        args.push(msg);
        args.push("-q");
        args.push("--allow-empty");
        proof {
            assert(views_of(args@) =~= seq!["commit"@, "-m"@, msg@, "-q"@, "--allow-empty"@]);
        }
        args
    }

    /// The argument list for `git fetch` run with the --all option.
    pub fn fetch(&self) -> (args: Vec<&'static str>)
        ensures
            views_of(args@) == seq!["fetch"@, "--all"@, "-q"@],
    {
        let mut args: Vec<&'static str> = Vec::new();
        args.push("fetch");
        args.push("--all");
        args.push("-q");
        proof {
            assert(views_of(args@) =~= seq!["fetch"@, "--all"@, "-q"@]);
        }
        args
    }

    /// The argument list for `git init` run quietly.
    pub fn init(&self) -> (args: Vec<&'static str>)
        ensures
            views_of(args@) == seq!["init"@, "-q"@],
    {
        let mut args: Vec<&'static str> = Vec::new();
        args.push("init");
        args.push("-q");
        proof {
            assert(views_of(args@) =~= seq!["init"@, "-q"@]);
        }
        args
    }

    /// The argument list for `git notes add`, adding a note to HEAD.
    pub fn notes<'a>(&self, msg: &'a str) -> (args: Vec<&'a str>)
        ensures
            views_of(args@) == seq!["notes"@, "add"@, "-m"@, msg@],
    {
        let mut args: Vec<&'a str> = Vec::new();
        args.push("notes");
        args.push("add");
        args.push("-m");
        args.push(msg);
        proof {
            assert(views_of(args@) =~= seq!["notes"@, "add"@, "-m"@, msg@]);
        }
        args
    }

    /// The argument list for `git pull` without remote or refs.
    pub fn pull(&self) -> (args: Vec<&'static str>)
        ensures
            views_of(args@) == seq!["pull"@, "-q"@],
    {
        let mut args: Vec<&'static str> = Vec::new();
        args.push("pull");
        args.push("-q");
        proof {
            assert(views_of(args@) =~= seq!["pull"@, "-q"@]);
        }
        args
    }

    /// The argument list for `git push` without remote or refs.
    pub fn push(&self) -> (args: Vec<&'static str>)
        ensures
            views_of(args@) == seq!["push"@, "-q"@],
    {
        let mut args: Vec<&'static str> = Vec::new();
        args.push("push");
        args.push("-q");
        proof {
            assert(views_of(args@) =~= seq!["push"@, "-q"@]);
        }
        args
    }

    /// The argument list for `git remote add`, adding a single remote.
    pub fn remote<'a>(&self, name: &'a str, url: &'a str) -> (args: Vec<&'a str>)
        ensures
            views_of(args@) == seq!["remote"@, "add"@, name@, url@],
    {
        let mut args: Vec<&'a str> = Vec::new();
        args.push("remote");
        args.push("add");
        args.push(name);
        args.push(url);
        proof {
            assert(views_of(args@) =~= seq!["remote"@, "add"@, name@, url@]);
        }
        args
    }

    /// The argument list for `git status` run with the machine-readable
    /// long format, branch-tracking header lines, and ignored-file
    /// reporting: the report [`Status::parse`] decodes.
    pub fn status(&self) -> (args: Vec<&'static str>)
        ensures
            views_of(args@) == seq!["status"@, "--porcelain=v2"@, "--branch"@, "--ignored"@],
    {
        let mut args: Vec<&'static str> = Vec::new();
        args.push("status");
        args.push("--porcelain=v2");
        args.push("--branch");
        args.push("--ignored");
        proof {
            assert(views_of(args@) =~= seq!["status"@, "--porcelain=v2"@, "--branch"@, "--ignored"@]);
        }
        args
    }

    /// The argument list for `git stash` run without options.
    pub fn stash(&self) -> (args: Vec<&'static str>)
        ensures
            views_of(args@) == seq!["stash"@, "-q"@],
    {
        let mut args: Vec<&'static str> = Vec::new();
        args.push("stash");
        args.push("-q");
        proof {
            assert(views_of(args@) =~= seq!["stash"@, "-q"@]);
        }
        args
    }

    /// The argument list for `git tag`, creating a new tag object.
    pub fn tag<'a>(&self, tagname: &'a str) -> (args: Vec<&'a str>)
        ensures
            views_of(args@) == seq!["tag"@, tagname@],
    {
        let mut args: Vec<&'a str> = Vec::new();
        args.push("tag");
        args.push(tagname);
        proof {
            assert(views_of(args@) =~= seq!["tag"@, tagname@]);
        }
        args
    }
}

} // verus!
