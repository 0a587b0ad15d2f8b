//! Paths under the workspace root, and the shell text that changes into them.

use vstd::prelude::*;
use crate::text::push_char;

verus! {

/// `root/name`, with no second `/` when `root` already ends in one; an empty
/// root leaves `name` as it is.
pub open spec fn joined(root: Seq<char>, name: Seq<char>) -> Seq<char> {
    if root.len() == 0 {
        name
    } else if root.last() == '/' {
        root + name
    } else {
        root.push('/') + name
    }
}

/// The path of the entry `name` under `root`.
pub fn join_path(root: &str, name: &str) -> (r: String)
    ensures
        r@ == joined(root@, name@),
{
    let mut out = String::from_str(root);
    let n = root.unicode_len();
    if n == 0 {
        return String::from_str(name);
    }
    if root.get_char(n - 1) != '/' {
        push_char(&mut out, '/');
    }
    out.append(name);
    out
}

/// `'text'`: the text between single quotes.
pub open spec fn quoted(s: Seq<char>) -> Seq<char> {
    seq!['\''] + s + seq!['\'']
}

/// The line that changes the calling shell into `path`.
pub open spec fn cd_line(path: Seq<char>) -> Seq<char> {
    "cd "@ + quoted(path)
}

/// Appends `'s'` to `out`.
fn append_quoted(out: &mut String, s: &str)
    ensures
        final(out)@ == old(out)@ + quoted(s@),
{
    push_char(out, '\'');
    out.append(s);
    push_char(out, '\'');
}

/// `cd '<path>'`.
pub fn cd_command(path: &str) -> (r: String)
    ensures
        r@ == cd_line(path@),
{
    let mut out = String::from_str("cd ");
    append_quoted(&mut out, path);
    out
}

/// The first line of an emitted script: a comment for a reader who ran the
/// tool without its shell function.
pub open spec fn script_header_line() -> Seq<char> {
    "# if you can read this, you didn't launch try from an alias. run try --help."@
}

/// The comment line that starts every emitted script.
pub fn script_header() -> (r: String)
    ensures
        r@ == script_header_line(),
{
    String::from_str("# if you can read this, you didn't launch try from an alias. run try --help.")
}

/// The script that clones `url` into `path` and changes into it.
pub open spec fn clone_script_text(url: Seq<char>, path: Seq<char>) -> Seq<char> {
    script_header_line() + seq!['\n'] + "git clone "@ + quoted(url) + seq![' '] + quoted(path)
        + " && \\"@ + seq!['\n'] + "  "@ + cd_line(path)
}

/// The script that adds a worktree at `path` and changes into it.
pub open spec fn worktree_script_text(path: Seq<char>) -> Seq<char> {
    script_header_line() + seq!['\n'] + "git worktree add "@ + quoted(path) + " && \\"@
        + seq!['\n'] + "  "@ + cd_line(path)
}

/// Appends ` && \`, a line break, two spaces and the `cd` line for `path`.
fn append_then_cd(out: &mut String, path: &str)
    ensures
        final(out)@ == old(out)@ + " && \\"@ + seq!['\n'] + "  "@ + cd_line(path@),
{
    out.append(" && \\");
    push_char(out, '\n');
    out.append("  ");
    out.append(cd_command(path).as_str());
}

/// The script text for a clone in script mode (lines joined by `\n`).
pub fn clone_script(url: &str, path: &str) -> (r: String)
    ensures
        r@ == clone_script_text(url@, path@),
{
    let mut out = script_header();
    push_char(&mut out, '\n');
    out.append("git clone ");
    append_quoted(&mut out, url);
    push_char(&mut out, ' ');
    append_quoted(&mut out, path);
    append_then_cd(&mut out, path);
    out
}

/// The script text for a worktree in script mode (lines joined by `\n`).
pub fn worktree_script(path: &str) -> (r: String)
    ensures
        r@ == worktree_script_text(path@),
{
    let mut out = script_header();
    push_char(&mut out, '\n');
    out.append("git worktree add ");
    append_quoted(&mut out, path);
    append_then_cd(&mut out, path);
    out
}

} // verus!
