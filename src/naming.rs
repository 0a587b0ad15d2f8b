//! Names of new workspace directories, and what counts as a git URL.

use vstd::prelude::*;
use crate::date::{iso_date, CalendarDate};
use crate::text::{chars_of, has_infix, has_prefix, has_suffix, is_prefix, is_suffix, occurs_in, string_of};
use crate::text::push_char;

verus! {

/// `s` with every trailing `.git` removed.
pub open spec fn strip_git_suffix(s: Seq<char>) -> Seq<char>
    decreases s.len(),
{
    if s.len() >= 4 && is_suffix(".git"@, s) {
        strip_git_suffix(s.subrange(0, s.len() - 4))
    } else {
        s
    }
}

/// Scanning `s` left to right: the non-empty `/`-separated segments already
/// closed, and the segment being read.
pub open spec fn segment_scan(s: Seq<char>) -> (Seq<Seq<char>>, Seq<char>)
    decreases s.len(),
{
    if s.len() == 0 {
        (Seq::empty(), Seq::empty())
    } else {
        let (done, cur) = segment_scan(s.drop_last());
        if s.last() == '/' {
            if cur.len() > 0 {
                (done.push(cur), Seq::empty())
            } else {
                (done, Seq::empty())
            }
        } else {
            (done, cur.push(s.last()))
        }
    }
}

/// The non-empty `/`-separated segments of `s`, in order.
pub open spec fn segments(s: Seq<char>) -> Seq<Seq<char>> {
    let (done, cur) = segment_scan(s);
    if cur.len() > 0 {
        done.push(cur)
    } else {
        done
    }
}

/// `{owner}-{repo}` for a git URL: its last two segments once `.git` is
/// stripped; `user` stands for a missing owner and `repo` for a missing repo.
pub open spec fn clone_slug(url: Seq<char>) -> Seq<char> {
    let segs = segments(strip_git_suffix(url));
    if segs.len() >= 2 {
        segs[segs.len() - 2] + seq!['-'] + segs[segs.len() - 1]
    } else if segs.len() == 1 {
        "user"@ + seq!['-'] + segs[0]
    } else {
        "user"@ + seq!['-'] + "repo"@
    }
}

/// A dated directory name: the date's text, a dash, then the slug.
pub open spec fn dated_name(d: CalendarDate, slug: Seq<char>) -> Seq<char> {
    iso_date(d) + seq!['-'] + slug
}

/// What counts as a git URL: one of the usual schemes or `git@` in front, or
/// both `://` and `.git` somewhere.
pub open spec fn is_git_url(s: Seq<char>) -> bool {
    is_prefix("http://"@, s) || is_prefix("https://"@, s) || is_prefix("git@"@, s)
        || is_prefix("git://"@, s) || (occurs_in("://"@, s) && occurs_in(".git"@, s))
}

/// Whether `s` should be treated as a git URL rather than a search query.
pub fn looks_like_git_url(s: &str) -> (r: bool)
    ensures
        r == is_git_url(s@),
{
    let cs = chars_of(s);
    has_prefix(&cs, &chars_of("http://")) || has_prefix(&cs, &chars_of("https://"))
        || has_prefix(&cs, &chars_of("git@")) || has_prefix(&cs, &chars_of("git://")) || (
    has_infix(&cs, &chars_of("://")) && has_infix(&cs, &chars_of(".git")))
}

/// The characters of `url` with every trailing `.git` removed.
fn strip_git(url: &str) -> (r: Vec<char>)
    ensures
        r@ == strip_git_suffix(url@),
{
    let mut cs = chars_of(url);
    let suffix = chars_of(".git");
    while has_suffix(&cs, &suffix)
        invariant
            suffix@ == ".git"@,
            strip_git_suffix(cs@) == strip_git_suffix(url@),
        decreases cs@.len(),
    {
        proof {
            reveal_strlit(".git");
        }
        let ghost before = cs@;
        let n = cs.len();
        cs.truncate(n - 4);
        assert(cs@ =~= before.subrange(0, before.len() - 4));
    }
    cs
}

/// The last two segments of `s`: `(second to last, last)`, each present when
/// `s` has that many.
pub(crate) fn last_two_segments(s: &Vec<char>) -> (r: (Option<Vec<char>>, Option<Vec<char>>))
    ensures
        ({
            let segs = segments(s@);
            &&& (r.1 is Some <==> segs.len() >= 1)
            &&& (r.0 is Some <==> segs.len() >= 2)
            &&& (r.1 matches Some(v) ==> v@ == segs[segs.len() - 1])
            &&& (r.0 matches Some(v) ==> v@ == segs[segs.len() - 2])
        }),
{
    let mut prev: Option<Vec<char>> = None;
    let mut last: Option<Vec<char>> = None;
    let mut cur: Vec<char> = Vec::new();
    let ghost mut done: Seq<Seq<char>> = Seq::empty();
    let mut i: usize = 0;
    while i < s.len()
        invariant
            i <= s@.len(),
            segment_scan(s@.subrange(0, i as int)) == (done, cur@),
            last is Some <==> done.len() >= 1,
            prev is Some <==> done.len() >= 2,
            last matches Some(v) ==> v@ == done[done.len() - 1],
            prev matches Some(v) ==> v@ == done[done.len() - 2],
        decreases s@.len() - i,
    {
        let c = s[i];
        assert(s@.subrange(0, i + 1).drop_last() =~= s@.subrange(0, i as int));
        if c == '/' {
            if cur.len() > 0 {
                proof {
                    done = done.push(cur@);
                }
                prev = last;
                last = Some(cur);
                cur = Vec::new();
            }
        } else {
            cur.push(c);
        }
        i += 1;
    }
    assert(s@.subrange(0, s@.len() as int) =~= s@);
    if cur.len() > 0 {
        proof {
            done = done.push(cur@);
        }
        prev = last;
        last = Some(cur);
    }
    assert(segments(s@) == done);
    (prev, last)
}

/// `{owner}-{repo}` for a git URL.
pub fn clone_slug_of(url: &str) -> (r: String)
    ensures
        r@ == clone_slug(url@),
{
    let stripped = strip_git(url);
    let (owner, repo) = last_two_segments(&stripped);
    let mut out = match owner {
        Some(o) => string_of(&o),
        None => String::from_str("user"),
    };
    push_char(&mut out, '-');
    match repo {
        Some(r) => {
            out.append(string_of(&r).as_str());
        },
        None => {
            out.append("repo");
        },
    }
    out
}

/// The directory name for a clone of `url` made on `date`.
pub fn derive_clone_name(date: &CalendarDate, url: &str) -> (r: String)
    requires
        date.wf(),
    ensures
        r@ == dated_name(*date, clone_slug(url@)),
{
    let mut out = date.iso_text();
    push_char(&mut out, '-');
    out.append(clone_slug_of(url).as_str());
    out
}

/// The directory name for a workspace called `name` made on `date`.
pub fn derive_named_dir(date: &CalendarDate, name: &str) -> (r: String)
    requires
        date.wf(),
    ensures
        r@ == dated_name(*date, name@),
{
    let mut out = date.iso_text();
    push_char(&mut out, '-');
    out.append(name);
    out
}

} // verus!
