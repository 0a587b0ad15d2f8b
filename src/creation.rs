//! Creating one workspace, as a machine that asks for each outside step
//! (a file test, a directory, git) and is told how it went.

use vstd::prelude::*;
use crate::cli::{ExecutionMode, TryError};
use crate::paths::{cd_command, cd_line, clone_script, clone_script_text, worktree_script, worktree_script_text};
use crate::workspace::{git_clone_args, git_worktree_args};

verus! {

/// What is being created.
pub enum CreationKind {
    /// A clone of the repository at this URL.
    Clone { url: String },
    /// A worktree of the repository in the working directory.
    Worktree,
}

/// How far a creation has come.
#[derive(Clone, Copy, Debug, PartialEq, Eq, Structural)]
pub enum Stage {
    Start,
    CheckTarget,
    CreateRoot,
    CheckRepo,
    RunGit,
    Absolutize,
    Done,
}

/// An outside step the creation asks for, or how it ends.
#[derive(Debug, PartialEq, Eq)]
pub enum Effect {
    /// Say whether anything exists at this path.
    CheckTarget(String),
    /// Create this directory and its missing ancestors.
    CreateRoot(String),
    /// Say whether the working directory holds a `.git` entry.
    CheckRepo,
    /// Run git with these arguments, its output shown to the user.
    RunGit(Vec<String>),
    /// Give the absolute form of this path.
    Absolutize(String),
    /// Print this text; the creation succeeded.
    Emit(String),
    /// The creation failed.
    Fail(TryError),
    /// Nothing is left to do.
    Finished,
}

/// What an outside step gave.
#[derive(Debug, PartialEq, Eq)]
pub enum Event {
    Started,
    TargetExists(bool),
    RootCreated(bool),
    InRepo(bool),
    GitExited(bool),
    Absolute(String),
}

/// `args` are git's arguments for this kind of creation at `target`:
/// `clone <url> <target>`, or `worktree add <target>`.
pub open spec fn is_git_command(args: Seq<String>, kind: CreationKind, target: Seq<char>) -> bool {
    &&& args.len() == 3
    &&& args[2]@ == target
    &&& match kind {
        CreationKind::Clone { url } => args[0]@ == "clone"@ && args[1]@ == url@,
        CreationKind::Worktree => args[0]@ == "worktree"@ && args[1]@ == "add"@,
    }
}

/// One creation of a workspace directory at `target` under `root`.
pub struct Creation {
    kind: CreationKind,
    root: String,
    target: String,
    mode: ExecutionMode,
    stage: Stage,
}

impl Creation {
    /// The kind of creation.
    pub closed spec fn spec_kind(&self) -> &CreationKind {
        &self.kind
    }

    /// The workspace root.
    pub closed spec fn spec_root(&self) -> Seq<char> {
        self.root@
    }

    /// The directory to create.
    pub closed spec fn spec_target(&self) -> Seq<char> {
        self.target@
    }

    /// Direct or script mode.
    pub closed spec fn spec_mode(&self) -> ExecutionMode {
        self.mode
    }

    /// How far the creation has come.
    pub closed spec fn spec_stage(&self) -> Stage {
        self.stage
    }

    /// Git runs only in direct mode, the path is made absolute only in script
    /// mode, and only a worktree looks for a repository.
    pub open spec fn wf(&self) -> bool {
        &&& (self.spec_stage() == Stage::RunGit ==> self.spec_mode() == ExecutionMode::Direct)
        &&& (self.spec_stage() == Stage::Absolutize ==> self.spec_mode() == ExecutionMode::Script)
        &&& (self.spec_stage() == Stage::CheckRepo ==> self.spec_kind() is Worktree)
    }

    /// A creation that has not started.
    pub fn new(kind: CreationKind, root: String, target: String, mode: ExecutionMode) -> (r: Creation)
        ensures
            r.spec_kind() == kind,
            r.spec_root() == root@,
            r.spec_target() == target@,
            r.spec_mode() == mode,
            r.spec_stage() == Stage::Start,
            r.wf(),
    {
        Creation { kind, root, target, mode, stage: Stage::Start }
    }

    /// How far the creation has come.
    pub fn stage(&self) -> (r: Stage)
        ensures
            r == self.spec_stage(),
    {
        self.stage
    }

    /// The step after the root exists (and, for a worktree, the repository
    /// was found): git in direct mode, the absolute path in script mode.
    fn proceed(&mut self) -> (r: Effect)
        ensures
            final(self).spec_kind() == old(self).spec_kind(),
            final(self).spec_root() == old(self).spec_root(),
            final(self).spec_target() == old(self).spec_target(),
            final(self).spec_mode() == old(self).spec_mode(),
            old(self).spec_mode() == ExecutionMode::Direct ==> final(self).spec_stage() == Stage::RunGit
                && (r matches Effect::RunGit(args) && is_git_command(args@, old(self).kind, old(self).target@)),
            old(self).spec_mode() == ExecutionMode::Script ==> final(self).spec_stage() == Stage::Absolutize
                && (r matches Effect::Absolutize(p) && p@ == old(self).target@),
    {
        match self.mode {
            ExecutionMode::Direct => {
                self.stage = Stage::RunGit;
                match &self.kind {
                    CreationKind::Clone { url } => Effect::RunGit(git_clone_args(url.as_str(), self.target.as_str())),
                    CreationKind::Worktree => Effect::RunGit(git_worktree_args(self.target.as_str())),
                }
            },
            ExecutionMode::Script => {
                self.stage = Stage::Absolutize;
                Effect::Absolutize(self.target.clone())
            },
        }
    }

    /// Takes what the last step gave and says what comes next. The target is
    /// checked before the root is created, and the repository after; git runs
    /// only once all three passed. An event that does not answer the step
    /// asked for changes nothing and asks for that step again.
    pub fn step(&mut self, event: Event) -> (r: Effect)
        requires
            old(self).wf(),
        ensures
            final(self).wf(),
            final(self).spec_kind() == old(self).spec_kind(),
            final(self).spec_root() == old(self).spec_root(),
            final(self).spec_target() == old(self).spec_target(),
            final(self).spec_mode() == old(self).spec_mode(),
            ({
                let s = old(self).spec_stage();
                let t = old(self).spec_target();
                let direct = old(self).spec_mode() == ExecutionMode::Direct;
                let next = final(self).spec_stage();
                match (s, event) {
                    (Stage::Start, Event::Started) =>
                        next == Stage::CheckTarget && (r matches Effect::CheckTarget(p) && p@ == t),
                    (Stage::CheckTarget, Event::TargetExists(true)) =>
                        next == Stage::Done && (r matches Effect::Fail(TryError::AlreadyExists(p)) && p@ == t),
                    (Stage::CheckTarget, Event::TargetExists(false)) =>
                        next == Stage::CreateRoot && (r matches Effect::CreateRoot(p) && p@ == old(self).spec_root()),
                    (Stage::CreateRoot, Event::RootCreated(false)) =>
                        next == Stage::Done && (r matches Effect::Fail(TryError::Io(_))),
                    (Stage::CreateRoot, Event::RootCreated(true)) => match old(self).spec_kind() {
                        CreationKind::Worktree => next == Stage::CheckRepo && r == Effect::CheckRepo,
                        CreationKind::Clone { .. } => if direct {
                            next == Stage::RunGit && (r matches Effect::RunGit(args)
                                && is_git_command(args@, *old(self).spec_kind(), t))
                        } else {
                            next == Stage::Absolutize && (r matches Effect::Absolutize(p) && p@ == t)
                        },
                    },
                    (Stage::CheckRepo, Event::InRepo(false)) =>
                        next == Stage::Done && r == Effect::Fail(TryError::NotAGitRepo),
                    (Stage::CheckRepo, Event::InRepo(true)) => if direct {
                        next == Stage::RunGit && (r matches Effect::RunGit(args)
                            && is_git_command(args@, CreationKind::Worktree, t))
                    } else {
                        next == Stage::Absolutize && (r matches Effect::Absolutize(p) && p@ == t)
                    },
                    (Stage::RunGit, Event::GitExited(false)) =>
                        next == Stage::Done && (r matches Effect::Fail(TryError::Git(_))),
                    (Stage::RunGit, Event::GitExited(true)) =>
                        next == Stage::Done && (r matches Effect::Emit(text) && text@ == cd_line(t)),
                    (Stage::Absolutize, Event::Absolute(p)) => next == Stage::Done && (r matches Effect::Emit(text)
                        && text@ == match old(self).spec_kind() {
                            CreationKind::Clone { url } => clone_script_text(url@, p@),
                            CreationKind::Worktree => worktree_script_text(p@),
                        }),
                    (Stage::Done, _) => next == Stage::Done && r == Effect::Finished,
                    _ => next == s && match s {
                        Stage::Start => r matches Effect::CheckTarget(p) && p@ == t,
                        Stage::CheckTarget => r matches Effect::CheckTarget(p) && p@ == t,
                        Stage::CreateRoot => r matches Effect::CreateRoot(p) && p@ == old(self).spec_root(),
                        Stage::CheckRepo => r == Effect::CheckRepo,
                        Stage::RunGit => r matches Effect::RunGit(args)
                            && is_git_command(args@, *old(self).spec_kind(), t),
                        Stage::Absolutize => r matches Effect::Absolutize(p) && p@ == t,
                        Stage::Done => r == Effect::Finished,
                    },
                }
            }),
            r is RunGit ==> final(self).spec_stage() == Stage::RunGit && old(self).spec_mode() == ExecutionMode::Direct,
            (r is RunGit && old(self).spec_kind() is Worktree && old(self).spec_stage() != Stage::RunGit)
                ==> old(self).spec_stage() == Stage::CheckRepo && event == Event::InRepo(true),
    {
        match (self.stage, event) {
            (Stage::Start, Event::Started) => {
                self.stage = Stage::CheckTarget;
                Effect::CheckTarget(self.target.clone())
            },
            (Stage::CheckTarget, Event::TargetExists(exists)) => {
                if exists {
                    self.stage = Stage::Done;
                    Effect::Fail(TryError::AlreadyExists(self.target.clone()))
                } else {
                    self.stage = Stage::CreateRoot;
                    Effect::CreateRoot(self.root.clone())
                }
            },
            (Stage::CreateRoot, Event::RootCreated(created)) => {
                if !created {
                    self.stage = Stage::Done;
                    let mut m = String::from_str("Failed to create root directory: ");
                    m.append(self.root.as_str());
                    Effect::Fail(TryError::Io(m))
                } else {
                    match self.kind {
                        CreationKind::Worktree => {
                            self.stage = Stage::CheckRepo;
                            Effect::CheckRepo
                        },
                        CreationKind::Clone { .. } => self.proceed(),
                    }
                }
            },
            (Stage::CheckRepo, Event::InRepo(found)) => {
                if !found {
                    self.stage = Stage::Done;
                    Effect::Fail(TryError::NotAGitRepo)
                } else {
                    self.proceed()
                }
            },
            (Stage::RunGit, Event::GitExited(ok)) => {
                self.stage = Stage::Done;
                if ok {
                    Effect::Emit(cd_command(self.target.as_str()))
                } else {
                    let failed = match self.kind {
                        CreationKind::Clone { .. } => String::from_str("git clone failed"),
                        CreationKind::Worktree => String::from_str("git worktree add failed"),
                    };
                    Effect::Fail(TryError::Git(failed))
                }
            },
            (Stage::Absolutize, Event::Absolute(p)) => {
                self.stage = Stage::Done;
                match &self.kind {
                    CreationKind::Clone { url } => Effect::Emit(clone_script(url.as_str(), p.as_str())),
                    CreationKind::Worktree => Effect::Emit(worktree_script(p.as_str())),
                }
            },
            (Stage::Done, _) => Effect::Finished,
            (Stage::Start, _) | (Stage::CheckTarget, _) => Effect::CheckTarget(self.target.clone()),
            (Stage::CreateRoot, _) => Effect::CreateRoot(self.root.clone()),
            (Stage::CheckRepo, _) => Effect::CheckRepo,
            (Stage::RunGit, _) => match &self.kind {
                CreationKind::Clone { url } => Effect::RunGit(git_clone_args(url.as_str(), self.target.as_str())),
                CreationKind::Worktree => Effect::RunGit(git_worktree_args(self.target.as_str())),
            },
            (Stage::Absolutize, _) => Effect::Absolutize(self.target.clone()),
        }
    }
}

} // verus!
