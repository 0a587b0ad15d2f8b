//! The shell function that `init` prints, for each supported shell.

use vstd::prelude::*;
use crate::cli::TryError;
use crate::naming::{last_two_segments, segments};
use crate::text::chars_of;

verus! {

/// The shells with a function of their own; any other is treated as bash.
#[derive(Clone, Copy, Debug, PartialEq, Eq, Structural)]
pub enum Shell {
    Bash,
    Zsh,
    Fish,
}

/// The shell named by the last segment of the program path `p`.
pub open spec fn shell_of_program(p: Seq<char>) -> Shell {
    let segs = segments(p);
    if segs.len() > 0 && segs.last() == "fish"@ {
        Shell::Fish
    } else if segs.len() > 0 && segs.last() == "zsh"@ {
        Shell::Zsh
    } else {
        Shell::Bash
    }
}

/// The bash and zsh function, with `root` as the workspace root and `exe` as
/// the program.
pub open spec fn posix_function(root: Seq<char>, exe: Seq<char>) -> Seq<char> {
    "try() {\n    local output\n    export TRY_PATH=\""@ + root + "\"\n    output=$(\""@ + exe
        + "\" \"$@\")\n    if [ -n \"$output\" ]; then\n        eval \"$output\"\n    fi\n}"@
}

/// The fish function, with `root` as the workspace root and `exe` as the program.
pub open spec fn fish_function_text(root: Seq<char>, exe: Seq<char>) -> Seq<char> {
    "function try\n    set -x TRY_PATH \""@ + root + "\"\n    set output ("@ + exe
        + " $argv)\n    if [ -n \"$output\" ]\n        eval $output\n    end\nend"@
}

/// Whether the characters of `a` are those of `b`.
fn same_chars(a: &Vec<char>, b: &Vec<char>) -> (r: bool)
    ensures
        r == (a@ == b@),
{
    if a.len() != b.len() {
        return false;
    }
    let mut i: usize = 0;
    while i < a.len()
        invariant
            a@.len() == b@.len(),
            i <= a@.len(),
            forall|j: int| 0 <= j < i ==> a@[j] == b@[j],
        decreases a@.len() - i,
    {
        if a[i] != b[i] {
            return false;
        }
        i += 1;
    }
    assert(a@ =~= b@);
    true
}

impl Shell {
    /// The shell named by the `SHELL` setting; with none, `InvalidInput`.
    pub fn detect(shell_var: Option<String>) -> (r: Result<Shell, TryError>)
        ensures
            match shell_var {
                Some(p) => r == Ok::<Shell, TryError>(shell_of_program(p@)),
                None => r matches Err(TryError::InvalidInput(_)),
            },
    {
        match shell_var {
            Some(p) => {
                let cs = chars_of(p.as_str());
                let (_, last) = last_two_segments(&cs);
                match last {
                    Some(name) => {
                        if same_chars(&name, &chars_of("fish")) {
                            Ok(Shell::Fish)
                        } else if same_chars(&name, &chars_of("zsh")) {
                            Ok(Shell::Zsh)
                        } else {
                            Ok(Shell::Bash)
                        }
                    },
                    None => Ok(Shell::Bash),
                }
            },
            None => Err(TryError::InvalidInput(String::from_str("SHELL environment variable not set"))),
        }
    }

    /// This shell's function text.
    pub open spec fn function_text(self, root: Seq<char>, exe: Seq<char>) -> Seq<char> {
        match self {
            Shell::Fish => fish_function_text(root, exe),
            _ => posix_function(root, exe),
        }
    }

    /// The function that runs the program at `exe` with `root` as the
    /// workspace root and evaluates what it prints.
    pub fn function(&self, root: &str, exe: &str) -> (r: String)
        ensures
            r@ == self.function_text(root@, exe@),
    {
        match self {
            Shell::Fish => {
                let mut out = String::from_str("function try\n    set -x TRY_PATH \"");
                out.append(root);
                out.append("\"\n    set output (");
                out.append(exe);
                out.append(" $argv)\n    if [ -n \"$output\" ]\n        eval $output\n    end\nend");
                out
            },
            _ => {
                let mut out = String::from_str("try() {\n    local output\n    export TRY_PATH=\"");
                out.append(root);
                out.append("\"\n    output=$(\"");
                out.append(exe);
                out.append("\" \"$@\")\n    if [ -n \"$output\" ]; then\n        eval \"$output\"\n    fi\n}");
                out
            },
        }
    }
}

/// The root for `init`: the given path, else the environment's root; with
/// neither, `InvalidInput`.
pub fn init_root(path: Option<String>, env_root: Option<String>) -> (r: Result<String, TryError>)
    ensures
        match (path, env_root) {
            (Some(p), _) => r matches Ok(s) && s@ == p@,
            (None, Some(p)) => r matches Ok(s) && s@ == p@,
            (None, None) => r matches Err(TryError::InvalidInput(_)),
        },
{
    match (path, env_root) {
        (Some(p), _) => Ok(p),
        (None, Some(p)) => Ok(p),
        (None, None) => Err(TryError::InvalidInput(String::from_str("PATH required (either as argument or TRY_PATH env var)"))),
    }
}

} // verus!
