//! Commands, parsed arguments, and how a command line is routed.

use vstd::prelude::*;
use crate::naming::{is_git_url, looks_like_git_url};
use crate::paths::joined;
use crate::text::push_char;

verus! {

/// How a failed run is reported.
#[derive(Debug, PartialEq, Eq)]
pub enum TryError {
    /// A required name or setting is missing; the text says which.
    InvalidInput(String),
    /// The target directory is already there; the path.
    AlreadyExists(String),
    /// A worktree was asked for outside a git repository.
    NotAGitRepo,
    /// git could not be started or exited with failure; the text says which.
    Git(String),
    /// A directory could not be created or listed; the text says which.
    Io(String),
    /// The picker was left without a choice.
    Cancelled,
}

impl TryError {
    /// The text shown to the user for this error.
    pub fn message(&self) -> (r: String)
        ensures
            r@ == match self {
                TryError::InvalidInput(m) => m@,
                TryError::AlreadyExists(p) => "Directory already exists: "@ + p@,
                TryError::NotAGitRepo => "Not in a git repository"@,
                TryError::Git(m) => m@,
                TryError::Io(m) => m@,
                TryError::Cancelled => "Cancelled"@,
            },
    {
        match self {
            TryError::InvalidInput(m) => m.clone(),
            TryError::AlreadyExists(p) => {
                let mut out = String::from_str("Directory already exists: ");
                out.append(p.as_str());
                out
            },
            TryError::NotAGitRepo => String::from_str("Not in a git repository"),
            TryError::Git(m) => m.clone(),
            TryError::Io(m) => m.clone(),
            TryError::Cancelled => String::from_str("Cancelled"),
        }
    }
}

/// Whether an action is carried out here or emitted as a script for the
/// calling shell to evaluate.
#[derive(Clone, Copy, Debug, PartialEq, Eq, Structural)]
pub enum ExecutionMode {
    Direct,
    Script,
}

/// Commands run in script mode.
#[allow(inconsistent_fields)]
#[derive(Debug, PartialEq, Eq)]
pub enum ExecCommand {
    Cd { query: Option<String> },
    Clone { url: String, name: Option<String> },
    Worktree { name: String },
}

/// The tool's commands.
#[allow(inconsistent_fields)]
#[derive(Debug, PartialEq, Eq)]
pub enum Command {
    /// Print the shell function for the given root.
    Init { path: Option<String> },
    /// Pick a workspace, with an optional initial query.
    Cd { query: Option<String> },
    /// Run a command in script mode.
    Exec { exec_command: ExecCommand },
    /// Clone a repository into a dated directory.
    Clone { url: String, name: Option<String> },
    /// Add a git worktree in a dated directory.
    Worktree { name: String },
    /// Same as `Worktree`.
    Dot { name: String },
}

fn copy_opt(s: &Option<String>) -> (r: Option<String>)
    ensures
        r == *s,
{
    match s {
        Some(x) => Some(x.clone()),
        None => None,
    }
}

impl ExecCommand {
    /// An equal command.
    pub fn duplicate(&self) -> (r: ExecCommand)
        ensures
            r == *self,
    {
        match self {
            ExecCommand::Cd { query } => ExecCommand::Cd { query: copy_opt(query) },
            ExecCommand::Clone { url, name } => ExecCommand::Clone { url: url.clone(), name: copy_opt(name) },
            ExecCommand::Worktree { name } => ExecCommand::Worktree { name: name.clone() },
        }
    }
}

impl Command {
    /// An equal command.
    pub fn duplicate(&self) -> (r: Command)
        ensures
            r == *self,
    {
        match self {
            Command::Init { path } => Command::Init { path: copy_opt(path) },
            Command::Cd { query } => Command::Cd { query: copy_opt(query) },
            Command::Exec { exec_command } => Command::Exec { exec_command: exec_command.duplicate() },
            Command::Clone { url, name } => Command::Clone { url: url.clone(), name: copy_opt(name) },
            Command::Worktree { name } => Command::Worktree { name: name.clone() },
            Command::Dot { name } => Command::Dot { name: name.clone() },
        }
    }
}

/// The words joined by single spaces.
pub open spec fn joined_words(ws: Seq<Seq<char>>) -> Seq<char>
    decreases ws.len(),
{
    if ws.len() == 0 {
        Seq::empty()
    } else if ws.len() == 1 {
        ws[0]
    } else {
        joined_words(ws.drop_last()).push(' ') + ws.last()
    }
}

/// The words joined by single spaces.
pub fn join_words(ws: &Vec<String>) -> (r: String)
    ensures
        r@ == joined_words(ws@.map_values(|w: String| w@)),
{
    let ghost views = ws@.map_values(|w: String| w@);
    let mut out = String::new();
    let mut i: usize = 0;
    while i < ws.len()
        invariant
            i <= ws@.len(),
            views == ws@.map_values(|w: String| w@),
            out@ == joined_words(views.subrange(0, i as int)),
        decreases ws@.len() - i,
    {
        if i > 0 {
            push_char(&mut out, ' ');
        }
        out.append(ws[i].as_str());
        assert(views.subrange(0, i + 1).drop_last() =~= views.subrange(0, i as int));
        i += 1;
    }
    assert(views.subrange(0, ws@.len() as int) =~= views);
    out
}

/// The root under `home` used when nothing else names one.
pub open spec fn default_root(home: Seq<char>) -> Seq<char> {
    joined(joined(home, "src"@), "tries"@)
}

/// The workspace root: the flag's path, else the environment's, else the
/// default under `home`; with none of them, `InvalidInput`.
pub open spec fn root_choice(flag: Option<String>, env_root: Option<String>, home: Option<String>, r: Result<String, TryError>) -> bool {
    match (flag, env_root, home) {
        (Some(p), _, _) => r matches Ok(s) && s@ == p@,
        (None, Some(p), _) => r matches Ok(s) && s@ == p@,
        (None, None, Some(h)) => r matches Ok(s) && s@ == default_root(h@),
        (None, None, None) => r matches Err(TryError::InvalidInput(_)),
    }
}

/// Picks the workspace root as `root_choice` says.
pub fn resolve_root(flag: Option<String>, env_root: Option<String>, home: Option<String>) -> (r: Result<String, TryError>)
    ensures
        root_choice(flag, env_root, home, r),
{
    match (flag, env_root, home) {
        (Some(p), _, _) => Ok(p),
        (None, Some(p), _) => Ok(p),
        (None, None, Some(h)) => {
            let src = crate::paths::join_path(h.as_str(), "src");
            Ok(crate::paths::join_path(src.as_str(), "tries"))
        },
        (None, None, None) => Err(TryError::InvalidInput(String::from_str("HOME environment variable not set"))),
    }
}

/// Where a `cd` with this query leads.
#[derive(Debug, PartialEq, Eq)]
pub enum CdRoute {
    /// The query is a git URL: clone it.
    Clone { url: String },
    /// Open the picker with this initial query.
    Pick { query: Option<String> },
}

/// A `cd` whose query is a git URL becomes a clone of it; any other opens the picker.
pub fn route_cd(query: Option<String>) -> (r: CdRoute)
    ensures
        match query {
            Some(q) => if is_git_url(q@) {
                r == (CdRoute::Clone { url: q })
            } else {
                r == (CdRoute::Pick { query: Some(q) })
            },
            None => r == (CdRoute::Pick { query: None }),
        },
{
    match query {
        Some(q) => {
            if looks_like_git_url(q.as_str()) {
                CdRoute::Clone { url: q }
            } else {
                CdRoute::Pick { query: Some(q) }
            }
        },
        None => CdRoute::Pick { query: None },
    }
}

/// Parsed arguments: an optional command, a root override, and free words.
pub struct Args {
    pub command: Option<Command>,
    pub path: Option<String>,
    pub query: Vec<String>,
}

/// The free words joined by spaces.
pub open spec fn words_text(query: Seq<String>) -> Seq<char> {
    joined_words(query.map_values(|w: String| w@))
}

impl Args {
    /// The command to run: the subcommand if one was given, else a `cd` whose
    /// query is the free words joined by spaces (none when there are no words).
    pub fn resolve_command(&self) -> (r: Command)
        ensures
            match self.command {
                Some(c) => r == c,
                None => if self.query@.len() == 0 {
                    r == (Command::Cd { query: None })
                } else {
                    r matches Command::Cd { query: Some(q) } && q@ == words_text(self.query@)
                },
            },
    {
        match &self.command {
            Some(c) => c.duplicate(),
            None => {
                if self.query.len() == 0 {
                    Command::Cd { query: None }
                } else {
                    Command::Cd { query: Some(join_words(&self.query)) }
                }
            },
        }
    }

    /// The workspace root as `root_choice` says, given the environment's root
    /// and home settings.
    pub fn root_path(&self, env_root: Option<String>, home: Option<String>) -> (r: Result<String, TryError>)
        ensures
            root_choice(self.path, env_root, home, r),
    {
        resolve_root(copy_opt(&self.path), env_root, home)
    }
}

/// Parsed arguments of the full command line, with its test-mode switches.
pub struct TryArgs {
    pub command: Option<Command>,
    pub path: Option<String>,
    pub no_colors: bool,
    pub and_exit: bool,
    pub and_keys: Option<String>,
    pub no_expand_tokens: bool,
    pub query: Vec<String>,
}

impl TryArgs {
    /// The command to run: the subcommand if one was given; else the free
    /// words joined by spaces, cloned when they form a git URL and otherwise
    /// the picker's query; with no words, the picker without a query.
    pub fn resolve_command(&self) -> (r: Command)
        ensures
            match self.command {
                Some(c) => r == c,
                None => if self.query@.len() == 0 {
                    r == (Command::Cd { query: None })
                } else if is_git_url(words_text(self.query@)) {
                    r matches Command::Clone { url, name: None } && url@ == words_text(self.query@)
                } else {
                    r matches Command::Cd { query: Some(q) } && q@ == words_text(self.query@)
                },
            },
    {
        match &self.command {
            Some(c) => c.duplicate(),
            None => {
                if self.query.len() == 0 {
                    Command::Cd { query: None }
                } else {
                    let q = join_words(&self.query);
                    if looks_like_git_url(q.as_str()) {
                        Command::Clone { url: q, name: None }
                    } else {
                        Command::Cd { query: Some(q) }
                    }
                }
            },
        }
    }

    /// The workspace root as `root_choice` says, given the environment's root
    /// and home settings.
    pub fn root_path(&self, env_root: Option<String>, home: Option<String>) -> (r: Result<String, TryError>)
        ensures
            root_choice(self.path, env_root, home, r),
    {
        resolve_root(copy_opt(&self.path), env_root, home)
    }
}

} // verus!
