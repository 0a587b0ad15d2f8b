//! Where new workspaces go, and what git is asked to do for them.

use vstd::prelude::*;
use crate::cli::TryError;
use crate::date::CalendarDate;
use crate::naming::{clone_slug, dated_name, derive_clone_name, derive_named_dir};
use crate::paths::{join_path, joined};

verus! {

/// The workspace root that one run works under.
pub struct RunContext {
    pub root: String,
}

/// The directory name for a clone: dated, with the given name or else the
/// URL's owner and repository.
pub open spec fn clone_dir_name(date: CalendarDate, url: Seq<char>, name: Option<String>) -> Seq<char> {
    match name {
        Some(n) => dated_name(date, n@),
        None => dated_name(date, clone_slug(url)),
    }
}

impl RunContext {
    /// The path of `dir_name` under the root.
    pub fn target_path(&self, dir_name: &str) -> (r: String)
        ensures
            r@ == joined(self.root@, dir_name@),
    {
        join_path(self.root.as_str(), dir_name)
    }

    /// Where a clone of `url` made on `date` goes.
    pub fn clone_target(&self, date: &CalendarDate, url: &str, name: Option<String>) -> (r: String)
        requires
            date.wf(),
        ensures
            r@ == joined(self.root@, clone_dir_name(*date, url@, name)),
    {
        let dir = match name {
            Some(n) => derive_named_dir(date, n.as_str()),
            None => derive_clone_name(date, url),
        };
        self.target_path(dir.as_str())
    }

    /// Where a worktree called `name` made on `date` goes; a missing or empty
    /// name is `InvalidInput`.
    pub fn worktree_target(&self, date: &CalendarDate, name: Option<String>) -> (r: Result<String, TryError>)
        requires
            date.wf(),
        ensures
            match name {
                Some(n) if n@.len() > 0 => r matches Ok(p) && p@ == joined(self.root@, dated_name(*date, n@)),
                _ => r matches Err(TryError::InvalidInput(_)),
            },
    {
        match name {
            Some(n) => {
                if n.as_str().unicode_len() == 0 {
                    Err(TryError::InvalidInput(String::from_str("Name required for worktree")))
                } else {
                    let dir = derive_named_dir(date, n.as_str());
                    Ok(self.target_path(dir.as_str()))
                }
            },
            None => Err(TryError::InvalidInput(String::from_str("Name required for worktree"))),
        }
    }

}

/// The arguments of `git clone <url> <target>`.
pub fn git_clone_args(url: &str, target: &str) -> (r: Vec<String>)
    ensures
        r@.len() == 3,
        r@[0]@ == "clone"@,
        r@[1]@ == url@,
        r@[2]@ == target@,
{
    let mut v: Vec<String> = Vec::new();
    v.push(String::from_str("clone"));
    v.push(String::from_str(url));
    v.push(String::from_str(target));
    v
}

/// The arguments of `git worktree add <target>`.
pub fn git_worktree_args(target: &str) -> (r: Vec<String>)
    ensures
        r@.len() == 3,
        r@[0]@ == "worktree"@,
        r@[1]@ == "add"@,
        r@[2]@ == target@,
{
    let mut v: Vec<String> = Vec::new();
    v.push(String::from_str("worktree"));
    v.push(String::from_str("add"));
    v.push(String::from_str(target));
    v
}

} // verus!
