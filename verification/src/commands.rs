//! Builder types for git subcommands: each collects options and produces the
//! exact argument list handed to git, the subcommand name first.

use vstd::prelude::*;
use crate::scan::str_eq;
use crate::scan::string_views;
use crate::scan::views_of;

verus! {

/// Append owned copies of `items` to `list`.
fn extend_owned(list: &mut Vec<String>, items: &[&str])
    ensures
        string_views(final(list)@) == string_views(old(list)@) + views_of(items@),
{
    let n = items.len();
    let mut k: usize = 0;
    while k < n
        invariant
            k <= n,
            n == items@.len(),
            string_views(list@) == string_views(old(list)@) + views_of(items@.subrange(0, k as int)),
        decreases n - k,
    {
        let ghost prev = string_views(list@);
        list.push(items[k].to_owned());
        proof {
            assert(string_views(list@) =~= prev.push(items@[k as int]@));
            assert(items@.subrange(0, k as int + 1)
                =~= items@.subrange(0, k as int).push(items@[k as int]));
            assert(views_of(items@.subrange(0, k as int + 1))
                =~= views_of(items@.subrange(0, k as int)).push(items@[k as int]@));
            assert(string_views(list@)
                =~= string_views(old(list)@) + views_of(items@.subrange(0, k as int + 1)));
        }
        k = k + 1;
    }
    proof {
        assert(items@.subrange(0, n as int) =~= items@);
    }
}

/// Append borrows of the strings in `list` to `args`.
fn extend_args<'a>(args: &mut Vec<&'a str>, list: &'a Vec<String>)
    ensures
        views_of(final(args)@) == views_of(old(args)@) + string_views(list@),
{
    let n = list.len();
    let mut k: usize = 0;
    while k < n
        invariant
            k <= n,
            n == list@.len(),
            views_of(args@) == views_of(old(args)@) + string_views(list@.subrange(0, k as int)),
        decreases n - k,
    {
        let ghost prev = views_of(args@);
        args.push(list[k].as_str());
        proof {
            assert(views_of(args@) =~= prev.push(list@[k as int]@));
            assert(list@.subrange(0, k as int + 1)
                =~= list@.subrange(0, k as int).push(list@[k as int]));
            assert(string_views(list@.subrange(0, k as int + 1))
                =~= string_views(list@.subrange(0, k as int)).push(list@[k as int]@));
            assert(views_of(args@)
                =~= views_of(old(args)@) + string_views(list@.subrange(0, k as int + 1)));
        }
        k = k + 1;
    }
    proof {
        assert(list@.subrange(0, n as int) =~= list@);
    }
}

/// The mathematical content of [`AddOptions`].
pub ghost struct AddOptionsView {
    pub all: Option<bool>,
    pub chmod: Option<bool>,
    pub pathspecs: Seq<Seq<char>>,
}

impl AddOptionsView {
    /// The argument list `git add` is called with under these options.
    pub open spec fn spec_git_args(self) -> Seq<Seq<char>> {
        seq!["add"@] + (match self.all {
            Some(true) => seq!["--all"@],
            Some(false) => seq!["--no-all"@],
            None => Seq::<Seq<char>>::empty(),
        }) + (match self.chmod {
            Some(true) => seq!["--chmod=+x"@],
            Some(false) => seq!["--chmod=-x"@],
            None => Seq::<Seq<char>>::empty(),
        }) + self.pathspecs
    }
}

/// Options for the `git add` subcommand.
#[derive(Debug, Default)]
pub struct AddOptions {
    all: Option<bool>,
    chmod: Option<bool>,
    pathspecs: Vec<String>,
}

impl View for AddOptions {
    type V = AddOptionsView;

    closed spec fn view(&self) -> AddOptionsView {
        AddOptionsView {
            all: self.all,
            chmod: self.chmod,
            pathspecs: string_views(self.pathspecs@),
        }
    }
}

impl AddOptions {
    /// Create a new set of `git add` options.
    pub fn new() -> (r: AddOptions)
        ensures
            r@ == (AddOptionsView { all: None, chmod: None, pathspecs: Seq::<Seq<char>>::empty() }),
    {
        let r = AddOptions { all: None, chmod: None, pathspecs: Vec::new() };
        proof {
            assert(r@.pathspecs =~= Seq::<Seq<char>>::empty());
        }
        r
    }

    /// Add argument:
    /// * `true` : --all
    /// * `false` : --no-all
    pub fn all(&mut self, val: bool) -> (r: &mut AddOptions)
        ensures
            r@ == (AddOptionsView { all: Some(val), ..old(self)@ }),
            *final(self) == *final(r),
    {
        self.all = Some(val);
        self
    }

    /// Add argument:
    /// * `true` : --chmod=+x
    /// * `false` : --chmod=-x
    pub fn chmod(&mut self, val: bool) -> (r: &mut AddOptions)
        ensures
            r@ == (AddOptionsView { chmod: Some(val), ..old(self)@ }),
            *final(self) == *final(r),
    {
        self.chmod = Some(val);
        self
    }

    /// Add a pathspec to the add command.
    pub fn pathspec(&mut self, pathspec: &str) -> (r: &mut AddOptions)
        ensures
            r@ == (AddOptionsView {
                pathspecs: old(self)@.pathspecs.push(pathspec@),
                ..old(self)@
            }),
            *final(self) == *final(r),
    {
        self.pathspecs.push(pathspec.to_owned());
        proof {
            assert(self@.pathspecs =~= old(self)@.pathspecs.push(pathspec@));
        }
        self
    }

    /// Add multiple pathspecs to the add command.
    pub fn pathspecs(&mut self, pathspecs: &[&str]) -> (r: &mut AddOptions)
        ensures
            r@ == (AddOptionsView {
                pathspecs: old(self)@.pathspecs + views_of(pathspecs@),
                ..old(self)@
            }),
            *final(self) == *final(r),
    {
        extend_owned(&mut self.pathspecs, pathspecs);
        self
    }

    /// Return the argument list passed to git.
    pub fn git_args(&self) -> (args: Vec<&str>)
        ensures
            views_of(args@) == self@.spec_git_args(),
    {
        let mut args: Vec<&str> = Vec::new();
        args.push("add");
        match self.all {
            Some(true) => args.push("--all"),
            Some(false) => args.push("--no-all"),
            None => (),
        }
        match self.chmod {
            Some(true) => args.push("--chmod=+x"),
            Some(false) => args.push("--chmod=-x"),
            None => (),
        }
        extend_args(&mut args, &self.pathspecs);
        proof {
            assert(views_of(args@) =~= self@.spec_git_args());
        }
        args
    }
}

/// The mathematical content of [`CloneOptions`].
pub ghost struct CloneOptionsView {
    pub branch: Option<Seq<char>>,
    pub origin: Option<Seq<char>>,
    pub url: Option<Seq<char>>,
    pub dir: Option<Seq<char>>,
}

impl CloneOptionsView {
    /// The argument list `git clone` is called with for the repository URL
    /// `repository` under these options.
    pub open spec fn spec_git_args(self, repository: Seq<char>) -> Seq<Seq<char>> {
        seq!["clone"@] + (match self.branch {
            Some(b) => seq!["--branch"@, b],
            None => Seq::<Seq<char>>::empty(),
        }) + (match self.origin {
            Some(o) => seq!["--origin"@, o],
            None => Seq::<Seq<char>>::empty(),
        }) + seq![repository] + (match self.dir {
            Some(d) => seq![d],
            None => Seq::<Seq<char>>::empty(),
        })
    }
}

/// Options for the `git clone` subcommand.
#[derive(Debug, Default)]
pub struct CloneOptions {
    branch: Option<String>,
    origin: Option<String>,
    url: Option<String>,
    dir: Option<String>,
}

impl View for CloneOptions {
    type V = CloneOptionsView;

    closed spec fn view(&self) -> CloneOptionsView {
        CloneOptionsView {
            branch: match self.branch {
                Some(b) => Some(b@),
                None => None,
            },
            origin: match self.origin {
                Some(o) => Some(o@),
                None => None,
            },
            url: match self.url {
                Some(u) => Some(u@),
                None => None,
            },
            dir: match self.dir {
                Some(d) => Some(d@),
                None => None,
            },
        }
    }
}

impl CloneOptions {
    /// Create a new set of `git clone` options.
    pub fn new() -> (r: CloneOptions)
        ensures
            r@ == (CloneOptionsView { branch: None, origin: None, url: None, dir: None }),
    {
        CloneOptions { branch: None, origin: None, url: None, dir: None }
    }

    /// Point to the given branch in the cloned repository instead of HEAD.
    pub fn branch(&mut self, name: &str) -> (r: &mut CloneOptions)
        ensures
            r@ == (CloneOptionsView { branch: Some(name@), ..old(self)@ }),
            *final(self) == *final(r),
    {
        self.branch = Some(name.to_owned());
        self
    }

    /// Instead of using the remote name origin to keep track of the upstream
    /// repository, use the given name.
    pub fn origin(&mut self, name: &str) -> (r: &mut CloneOptions)
        ensures
            r@ == (CloneOptionsView { origin: Some(name@), ..old(self)@ }),
            *final(self) == *final(r),
    {
        self.origin = Some(name.to_owned());
        self
    }

    /// Specify the directory to clone into.
    pub fn dir(&mut self, dir: &str) -> (r: &mut CloneOptions)
        ensures
            r@ == (CloneOptionsView { dir: Some(dir@), ..old(self)@ }),
            *final(self) == *final(r),
    {
        self.dir = Some(dir.to_owned());
        self
    }

    /// Return the argument list passed to git for cloning the repository at
    /// the given URL.
    pub fn git_args<'a>(&'a self, repository: &'a str) -> (args: Vec<&'a str>)
        ensures
            views_of(args@) == self@.spec_git_args(repository@),
    {
        let mut args: Vec<&str> = Vec::new();
        args.push("clone");
        match &self.branch {
            Some(b) => {
                args.push("--branch");
                args.push(b.as_str());
            },
            None => (),
        }
        match &self.origin {
            Some(o) => {
                args.push("--origin");
                args.push(o.as_str());
            },
            None => (),
        }
        args.push(repository);
        match &self.dir {
            Some(d) => args.push(d.as_str()),
            None => (),
        }
        proof {
            assert(views_of(args@) =~= self@.spec_git_args(repository@));
        }
        args
    }
}

/// The mathematical content of [`CommitOptions`].
pub ghost struct CommitOptionsView {
    pub all: bool,
    pub allow_empty: bool,
    pub amend: bool,
    pub files: Seq<Seq<char>>,
    pub msg: Seq<char>,
}

impl CommitOptionsView {
    /// The argument list `git commit` is called with under these options.
    pub open spec fn spec_git_args(self) -> Seq<Seq<char>> {
        seq!["commit"@, "-q"@] + (if self.msg.len() > 0 {
            seq!["-m"@, self.msg]
        } else {
            Seq::<Seq<char>>::empty()
        }) + (if self.all {
            seq!["--all"@]
        } else {
            Seq::<Seq<char>>::empty()
        }) + (if self.allow_empty {
            seq!["--allow-empty"@]
        } else {
            Seq::<Seq<char>>::empty()
        }) + (if self.amend {
            seq!["--amend"@]
        } else {
            Seq::<Seq<char>>::empty()
        }) + self.files
    }
}

/// Options for the `git commit` subcommand.
#[derive(Debug, Default)]
pub struct CommitOptions {
    all: bool,
    allow_empty: bool,
    amend: bool,
    files: Vec<String>,
    msg: String,
}

impl View for CommitOptions {
    type V = CommitOptionsView;

    closed spec fn view(&self) -> CommitOptionsView {
        CommitOptionsView {
            all: self.all,
            allow_empty: self.allow_empty,
            amend: self.amend,
            files: string_views(self.files@),
            msg: self.msg@,
        }
    }
}

impl CommitOptions {
    /// Create a new set of `git commit` options.
    pub fn new() -> (r: CommitOptions)
        ensures
            r@ == (CommitOptionsView {
                all: false,
                allow_empty: false,
                amend: false,
                files: Seq::<Seq<char>>::empty(),
                msg: Seq::<char>::empty(),
            }),
    {
        let r = CommitOptions {
            all: false,
            allow_empty: false,
            amend: false,
            files: Vec::new(),
            msg: String::new(),
        };
        proof {
            assert(r@.files =~= Seq::<Seq<char>>::empty());
        }
        r
    }

    /// Add --all option.
    pub fn all(&mut self, val: bool) -> (r: &mut CommitOptions)
        ensures
            r@ == (CommitOptionsView { all: val, ..old(self)@ }),
            *final(self) == *final(r),
    {
        self.all = val;
        self
    }

    /// Add --allow-empty option.
    pub fn allow_empty(&mut self, val: bool) -> (r: &mut CommitOptions)
        ensures
            r@ == (CommitOptionsView { allow_empty: val, ..old(self)@ }),
            *final(self) == *final(r),
    {
        self.allow_empty = val;
        self
    }

    /// Add --amend option.
    pub fn amend(&mut self, val: bool) -> (r: &mut CommitOptions)
        ensures
            r@ == (CommitOptionsView { amend: val, ..old(self)@ }),
            *final(self) == *final(r),
    {
        self.amend = val;
        self
    }

    /// Add a file to the commit command.
    pub fn file(&mut self, file: &str) -> (r: &mut CommitOptions)
        ensures
            r@ == (CommitOptionsView { files: old(self)@.files.push(file@), ..old(self)@ }),
            *final(self) == *final(r),
    {
        self.files.push(file.to_owned());
        proof {
            assert(self@.files =~= old(self)@.files.push(file@));
        }
        self
    }

    /// Add multiple files to the commit command.
    pub fn files(&mut self, files: &[&str]) -> (r: &mut CommitOptions)
        ensures
            r@ == (CommitOptionsView { files: old(self)@.files + views_of(files@), ..old(self)@ }),
            *final(self) == *final(r),
    {
        extend_owned(&mut self.files, files);
        self
    }

    /// Set the commit message.
    pub fn message(&mut self, msg: &str) -> (r: &mut CommitOptions)
        ensures
            r@ == (CommitOptionsView { msg: msg@, ..old(self)@ }),
            *final(self) == *final(r),
    {
        self.msg = msg.to_owned();
        self
    }

    /// Return the argument list passed to git.
    pub fn git_args(&self) -> (args: Vec<&str>)
        ensures
            views_of(args@) == self@.spec_git_args(),
    {
        let mut args: Vec<&str> = Vec::new();
        args.push("commit");
        args.push("-q");
        if !self.msg.as_str().is_empty() {
            args.push("-m");
            args.push(self.msg.as_str());
        }
        if self.all {
            args.push("--all");
        }
        if self.allow_empty {
            args.push("--allow-empty");
        }
        if self.amend {
            args.push("--amend");
        }
        extend_args(&mut args, &self.files);
        proof {
            assert(views_of(args@) =~= self@.spec_git_args());
        }
        args
    }
}

/// The mathematical content of [`NotesOptions`].
pub ghost struct NotesOptionsView {
    pub action: Seq<char>,
    pub msg: Seq<char>,
    pub object: Seq<char>,
}

impl NotesOptionsView {
    /// The argument list `git notes` is called with under these options.
    pub open spec fn spec_git_args(self) -> Seq<Seq<char>> {
        seq!["notes"@, self.action] + (if self.msg.len() > 0 {
            seq!["-m"@, self.msg]
        } else {
            Seq::<Seq<char>>::empty()
        }) + (if self.object.len() > 0 {
            seq![self.object]
        } else {
            Seq::<Seq<char>>::empty()
        })
    }
}

/// Options for the `git notes` subcommand.
#[derive(Debug, Default)]
pub struct NotesOptions {
    action: String,
    msg: String,
    object: String,
}

impl View for NotesOptions {
    type V = NotesOptionsView;

    closed spec fn view(&self) -> NotesOptionsView {
        NotesOptionsView { action: self.action@, msg: self.msg@, object: self.object@ }
    }
}

impl NotesOptions {
    /// Create a new set of `git notes add` options.
    pub fn add() -> (r: NotesOptions)
        ensures
            r@ == (NotesOptionsView {
                action: "add"@,
                msg: Seq::<char>::empty(),
                object: Seq::<char>::empty(),
            }),
    {
        NotesOptions { action: "add".to_owned(), msg: String::new(), object: String::new() }
    }

    /// Create a new set of `git notes append` options.
    pub fn append() -> (r: NotesOptions)
        ensures
            r@ == (NotesOptionsView {
                action: "append"@,
                msg: Seq::<char>::empty(),
                object: Seq::<char>::empty(),
            }),
    {
        NotesOptions { action: "append".to_owned(), msg: String::new(), object: String::new() }
    }

    /// Create a new set of `git notes remove` options.
    pub fn remove() -> (r: NotesOptions)
        ensures
            r@ == (NotesOptionsView {
                action: "remove"@,
                msg: Seq::<char>::empty(),
                object: Seq::<char>::empty(),
            }),
    {
        NotesOptions { action: "remove".to_owned(), msg: String::new(), object: String::new() }
    }

    /// Set the note message.
    pub fn message(&mut self, msg: &str) -> (r: &mut NotesOptions)
        ensures
            r@ == (NotesOptionsView { msg: msg@, ..old(self)@ }),
            *final(self) == *final(r),
    {
        self.msg = msg.to_owned();
        self
    }

    /// Set the object to attach notes to.
    pub fn object(&mut self, object: &str) -> (r: &mut NotesOptions)
        ensures
            r@ == (NotesOptionsView { object: object@, ..old(self)@ }),
            *final(self) == *final(r),
    {
        self.object = object.to_owned();
        self
    }

    /// Return the argument list passed to git.
    pub fn git_args(&self) -> (args: Vec<&str>)
        ensures
            views_of(args@) == self@.spec_git_args(),
    {
        let mut args: Vec<&str> = Vec::new();
        args.push("notes");
        args.push(self.action.as_str());
        if !self.msg.as_str().is_empty() {
            args.push("-m");
            args.push(self.msg.as_str());
        }
        if !self.object.as_str().is_empty() {
            args.push(self.object.as_str());
        }
        proof {
            assert(views_of(args@) =~= self@.spec_git_args());
        }
        args
    }
}

/// The mathematical content of [`PullOptions`].
pub ghost struct PullOptionsView {
    pub allow_unrelated: bool,
    pub repository: Seq<char>,
    pub refspecs: Seq<Seq<char>>,
}

impl PullOptionsView {
    /// The argument list `git pull` is called with under these options.
    pub open spec fn spec_git_args(self) -> Seq<Seq<char>> {
        seq!["pull"@, "-q"@] + (if self.allow_unrelated {
            seq!["--allow-unrelated"@]
        } else {
            Seq::<Seq<char>>::empty()
        }) + (if self.repository.len() > 0 {
            seq![self.repository]
        } else {
            Seq::<Seq<char>>::empty()
        }) + self.refspecs
    }
}

/// Options for the `git pull` subcommand.
#[derive(Debug, Default)]
pub struct PullOptions {
    allow_unrelated: bool,
    repository: String,
    refspecs: Vec<String>,
}

impl View for PullOptions {
    type V = PullOptionsView;

    closed spec fn view(&self) -> PullOptionsView {
        PullOptionsView {
            allow_unrelated: self.allow_unrelated,
            repository: self.repository@,
            refspecs: string_views(self.refspecs@),
        }
    }
}

impl PullOptions {
    /// Create a new set of `git pull` options.
    pub fn new() -> (r: PullOptions)
        ensures
            r@ == (PullOptionsView {
                allow_unrelated: false,
                repository: Seq::<char>::empty(),
                refspecs: Seq::<Seq<char>>::empty(),
            }),
    {
        let r = PullOptions {
            allow_unrelated: false,
            repository: String::new(),
            refspecs: Vec::new(),
        };
        proof {
            assert(r@.refspecs =~= Seq::<Seq<char>>::empty());
        }
        r
    }

    /// Add --allow-unrelated option.
    pub fn allow_unrelated(&mut self, val: bool) -> (r: &mut PullOptions)
        ensures
            r@ == (PullOptionsView { allow_unrelated: val, ..old(self)@ }),
            *final(self) == *final(r),
    {
        self.allow_unrelated = val;
        self
    }

    /// Add a refspec to the pull command.
    pub fn refspec(&mut self, refspec: &str) -> (r: &mut PullOptions)
        ensures
            r@ == (PullOptionsView { refspecs: old(self)@.refspecs.push(refspec@), ..old(self)@ }),
            *final(self) == *final(r),
    {
        self.refspecs.push(refspec.to_owned());
        proof {
            assert(self@.refspecs =~= old(self)@.refspecs.push(refspec@));
        }
        self
    }

    /// Add multiple refspecs to the pull command.
    pub fn refspecs(&mut self, refspecs: &[&str]) -> (r: &mut PullOptions)
        ensures
            r@ == (PullOptionsView {
                refspecs: old(self)@.refspecs + views_of(refspecs@),
                ..old(self)@
            }),
            *final(self) == *final(r),
    {
        extend_owned(&mut self.refspecs, refspecs);
        self
    }

    /// Set the remote repository source.
    pub fn remote(&mut self, repo: &str) -> (r: &mut PullOptions)
        ensures
            r@ == (PullOptionsView { repository: repo@, ..old(self)@ }),
            *final(self) == *final(r),
    {
        self.repository = repo.to_owned();
        self
    }

    /// Return the argument list passed to git.
    pub fn git_args(&self) -> (args: Vec<&str>)
        ensures
            views_of(args@) == self@.spec_git_args(),
    {
        let mut args: Vec<&str> = Vec::new();
        args.push("pull");
        args.push("-q");
        if self.allow_unrelated {
            args.push("--allow-unrelated");
        }
        if !self.repository.as_str().is_empty() {
            args.push(self.repository.as_str());
        }
        extend_args(&mut args, &self.refspecs);
        proof {
            assert(views_of(args@) =~= self@.spec_git_args());
        }
        args
    }
}

/// The mathematical content of [`PushOptions`].
pub ghost struct PushOptionsView {
    pub all: bool,
    pub tags: bool,
    pub force: bool,
    pub set_upstream: bool,
    pub repository: Seq<char>,
    pub refspecs: Seq<Seq<char>>,
}

impl PushOptionsView {
    /// The argument list `git push` is called with under these options.
    pub open spec fn spec_git_args(self) -> Seq<Seq<char>> {
        seq!["push"@, "-q"@] + (if self.all {
            seq!["--all"@]
        } else {
            Seq::<Seq<char>>::empty()
        }) + (if self.tags {
            seq!["--tags"@]
        } else {
            Seq::<Seq<char>>::empty()
        }) + (if self.force {
            seq!["--force"@]
        } else {
            Seq::<Seq<char>>::empty()
        }) + (if self.set_upstream {
            seq!["--set-upstream"@]
        } else {
            Seq::<Seq<char>>::empty()
        }) + (if self.repository.len() > 0 {
            seq![self.repository]
        } else {
            Seq::<Seq<char>>::empty()
        }) + self.refspecs
    }
}

/// Options for the `git push` subcommand.
#[derive(Debug, Default)]
pub struct PushOptions {
    all: bool,
    tags: bool,
    force: bool,
    set_upstream: bool,
    repository: String,
    refspecs: Vec<String>,
}

impl View for PushOptions {
    type V = PushOptionsView;

    closed spec fn view(&self) -> PushOptionsView {
        PushOptionsView {
            all: self.all,
            tags: self.tags,
            force: self.force,
            set_upstream: self.set_upstream,
            repository: self.repository@,
            refspecs: string_views(self.refspecs@),
        }
    }
}

impl PushOptions {
    /// Create a new set of `git push` options.
    pub fn new() -> (r: PushOptions)
        ensures
            r@ == (PushOptionsView {
                all: false,
                tags: false,
                force: false,
                set_upstream: false,
                repository: Seq::<char>::empty(),
                refspecs: Seq::<Seq<char>>::empty(),
            }),
    {
        let r = PushOptions {
            all: false,
            tags: false,
            force: false,
            set_upstream: false,
            repository: String::new(),
            refspecs: Vec::new(),
        };
        proof {
            assert(r@.refspecs =~= Seq::<Seq<char>>::empty());
        }
        r
    }

    /// Add --all option.
    pub fn all(&mut self, val: bool) -> (r: &mut PushOptions)
        ensures
            r@ == (PushOptionsView { all: val, ..old(self)@ }),
            *final(self) == *final(r),
    {
        self.all = val;
        self
    }

    /// Add --tags option.
    pub fn tags(&mut self, val: bool) -> (r: &mut PushOptions)
        ensures
            r@ == (PushOptionsView { tags: val, ..old(self)@ }),
            *final(self) == *final(r),
    {
        self.tags = val;
        self
    }

    /// Add --force option.
    pub fn force(&mut self, val: bool) -> (r: &mut PushOptions)
        ensures
            r@ == (PushOptionsView { force: val, ..old(self)@ }),
            *final(self) == *final(r),
    {
        self.force = val;
        self
    }

    /// Add --set-upstream option.
    pub fn set_upstream(&mut self, val: bool) -> (r: &mut PushOptions)
        ensures
            r@ == (PushOptionsView { set_upstream: val, ..old(self)@ }),
            *final(self) == *final(r),
    {
        self.set_upstream = val;
        self
    }

    /// Add a refspec to the push command.
    pub fn refspec(&mut self, refspec: &str) -> (r: &mut PushOptions)
        ensures
            r@ == (PushOptionsView { refspecs: old(self)@.refspecs.push(refspec@), ..old(self)@ }),
            *final(self) == *final(r),
    {
        self.refspecs.push(refspec.to_owned());
        proof {
            assert(self@.refspecs =~= old(self)@.refspecs.push(refspec@));
        }
        self
    }

    /// Add multiple refspecs to the push command.
    pub fn refspecs(&mut self, refspecs: &[&str]) -> (r: &mut PushOptions)
        ensures
            r@ == (PushOptionsView {
                refspecs: old(self)@.refspecs + views_of(refspecs@),
                ..old(self)@
            }),
            *final(self) == *final(r),
    {
        extend_owned(&mut self.refspecs, refspecs);
        self
    }

    /// Set the remote repository source.
    pub fn remote(&mut self, repo: &str) -> (r: &mut PushOptions)
        ensures
            r@ == (PushOptionsView { repository: repo@, ..old(self)@ }),
            *final(self) == *final(r),
    {
        self.repository = repo.to_owned();
        self
    }

    /// Return the argument list passed to git.
    pub fn git_args(&self) -> (args: Vec<&str>)
        ensures
            views_of(args@) == self@.spec_git_args(),
    {
        let mut args: Vec<&str> = Vec::new();
        args.push("push");
        args.push("-q");
        if self.all {
            args.push("--all");
        }
        if self.tags {
            args.push("--tags");
        }
        if self.force {
            args.push("--force");
        }
        if self.set_upstream {
            args.push("--set-upstream");
        }
        if !self.repository.as_str().is_empty() {
            args.push(self.repository.as_str());
        }
        extend_args(&mut args, &self.refspecs);
        proof {
            assert(views_of(args@) =~= self@.spec_git_args());
        }
        args
    }
}

/// The mathematical content of [`RemoteOptions`].
pub ghost struct RemoteOptionsView {
    pub action: Seq<char>,
    pub master: Seq<char>,
    pub tags: Option<bool>,
    pub name: Seq<char>,
    pub url: Seq<char>,
}

impl RemoteOptionsView {
    /// The argument list `git remote` is called with under these options.
    pub open spec fn spec_git_args(self) -> Seq<Seq<char>> {
        seq!["remote"@, self.action] + (if self.master.len() > 0 {
            seq!["-m"@, self.master]
        } else {
            Seq::<Seq<char>>::empty()
        }) + (match self.tags {
            Some(true) => seq!["--tags"@],
            Some(false) => seq!["--no-tags"@],
            None => Seq::<Seq<char>>::empty(),
        }) + seq![self.name, self.url]
    }
}

/// Options for the `git remote` subcommand.
#[derive(Debug, Default)]
pub struct RemoteOptions {
    action: String,
    master: String,
    tags: Option<bool>,
    name: String,
    url: String,
}

impl View for RemoteOptions {
    type V = RemoteOptionsView;

    closed spec fn view(&self) -> RemoteOptionsView {
        RemoteOptionsView {
            action: self.action@,
            master: self.master@,
            tags: self.tags,
            name: self.name@,
            url: self.url@,
        }
    }
}

impl RemoteOptions {
    /// Create a new set of `git remote add` options.
    pub fn add() -> (r: RemoteOptions)
        ensures
            r@ == (RemoteOptionsView {
                action: "add"@,
                master: Seq::<char>::empty(),
                tags: None,
                name: Seq::<char>::empty(),
                url: Seq::<char>::empty(),
            }),
    {
        RemoteOptions {
            action: "add".to_owned(),
            master: String::new(),
            tags: None,
            name: String::new(),
            url: String::new(),
        }
    }

    /// Add -m <master> option.
    pub fn master(&mut self, name: &str) -> (r: &mut RemoteOptions)
        ensures
            r@ == (RemoteOptionsView { master: name@, ..old(self)@ }),
            *final(self) == *final(r),
    {
        self.master = name.to_owned();
        self
    }

    /// Add --tags or --no-tags option.
    pub fn tags(&mut self, val: bool) -> (r: &mut RemoteOptions)
        ensures
            r@ == (RemoteOptionsView { tags: Some(val), ..old(self)@ }),
            *final(self) == *final(r),
    {
        self.tags = Some(val);
        self
    }

    /// Set the <name> parameter.
    pub fn name(&mut self, name: &str) -> (r: &mut RemoteOptions)
        ensures
            r@ == (RemoteOptionsView { name: name@, ..old(self)@ }),
            *final(self) == *final(r),
    {
        self.name = name.to_owned();
        self
    }

    /// Set the <url> parameter.
    pub fn url(&mut self, url: &str) -> (r: &mut RemoteOptions)
        ensures
            r@ == (RemoteOptionsView { url: url@, ..old(self)@ }),
            *final(self) == *final(r),
    {
        self.url = url.to_owned();
        self
    }

    /// Return the argument list passed to git.
    pub fn git_args(&self) -> (args: Vec<&str>)
        ensures
            views_of(args@) == self@.spec_git_args(),
    {
        let mut args: Vec<&str> = Vec::new();
        args.push("remote");
        args.push(self.action.as_str());
        if !self.master.as_str().is_empty() {
            args.push("-m");
            args.push(self.master.as_str());
        }
        match self.tags {
            Some(true) => args.push("--tags"),
            Some(false) => args.push("--no-tags"),
            None => (),
        }
        args.push(self.name.as_str());
        args.push(self.url.as_str());
        proof {
            assert(views_of(args@) =~= self@.spec_git_args());
        }
        args
    }
}

/// The mathematical content of [`TagOptions`].
pub ghost struct TagOptionsView {
    pub action: Seq<char>,
    pub msg: Seq<char>,
    pub tagname: Seq<char>,
    pub object: Seq<char>,
}

impl TagOptionsView {
    /// The argument list `git tag` is called with under these options.
    pub open spec fn spec_git_args(self) -> Seq<Seq<char>> {
        seq!["tag"@] + (if self.action == "delete"@ {
            seq!["-d"@]
        } else {
            Seq::<Seq<char>>::empty()
        }) + (if self.msg.len() > 0 {
            seq!["-m"@, self.msg]
        } else {
            Seq::<Seq<char>>::empty()
        }) + seq![self.tagname] + (if self.object.len() > 0 {
            seq![self.object]
        } else {
            Seq::<Seq<char>>::empty()
        })
    }
}

/// Options for the `git tag` subcommand.
#[derive(Debug, Default)]
pub struct TagOptions {
    action: String,
    msg: String,
    tagname: String,
    object: String,
}

impl View for TagOptions {
    type V = TagOptionsView;

    closed spec fn view(&self) -> TagOptionsView {
        TagOptionsView {
            action: self.action@,
            msg: self.msg@,
            tagname: self.tagname@,
            object: self.object@,
        }
    }
}

impl TagOptions {
    /// Create a new set of `git tag` options.
    pub fn add() -> (r: TagOptions)
        ensures
            r@ == (TagOptionsView {
                action: "add"@,
                msg: Seq::<char>::empty(),
                tagname: Seq::<char>::empty(),
                object: Seq::<char>::empty(),
            }),
    {
        TagOptions {
            action: "add".to_owned(),
            msg: String::new(),
            tagname: String::new(),
            object: String::new(),
        }
    }

    /// Create a new set of `git tag -d` options.
    pub fn delete() -> (r: TagOptions)
        ensures
            r@ == (TagOptionsView {
                action: "delete"@,
                msg: Seq::<char>::empty(),
                tagname: Seq::<char>::empty(),
                object: Seq::<char>::empty(),
            }),
    {
        TagOptions {
            action: "delete".to_owned(),
            msg: String::new(),
            tagname: String::new(),
            object: String::new(),
        }
    }

    /// Set the tag message.
    pub fn msg(&mut self, msg: &str) -> (r: &mut TagOptions)
        ensures
            r@ == (TagOptionsView { msg: msg@, ..old(self)@ }),
            *final(self) == *final(r),
    {
        self.msg = msg.to_owned();
        self
    }

    /// Set the tagname.
    pub fn tagname(&mut self, name: &str) -> (r: &mut TagOptions)
        ensures
            r@ == (TagOptionsView { tagname: name@, ..old(self)@ }),
            *final(self) == *final(r),
    {
        self.tagname = name.to_owned();
        self
    }

    /// Set the commit the tag will refer to.
    pub fn commit(&mut self, commit: &str) -> (r: &mut TagOptions)
        ensures
            r@ == (TagOptionsView { object: commit@, ..old(self)@ }),
            *final(self) == *final(r),
    {
        self.object = commit.to_owned();
        self
    }

    /// Set the object the tag will refer to.
    pub fn object(&mut self, object: &str) -> (r: &mut TagOptions)
        ensures
            r@ == (TagOptionsView { object: object@, ..old(self)@ }),
            *final(self) == *final(r),
    {
        self.object = object.to_owned();
        self
    }

    /// Return the argument list passed to git.
    pub fn git_args(&self) -> (args: Vec<&str>)
        ensures
            views_of(args@) == self@.spec_git_args(),
    {
        let mut args: Vec<&str> = Vec::new();
        args.push("tag");
        if str_eq(self.action.as_str(), "delete") {
            args.push("-d");
        }
        if !self.msg.as_str().is_empty() {
            args.push("-m");
            args.push(self.msg.as_str());
        }
        args.push(self.tagname.as_str());
        if !self.object.as_str().is_empty() {
            args.push(self.object.as_str());
        }
        proof {
            assert(views_of(args@) =~= self@.spec_git_args());
        }
        args
    }
}

} // verus!
