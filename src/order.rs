//! Newest-first order of workspace names: `YYYY-MM-DD-...` names sort by date
//! when compared character by character.

use vstd::prelude::*;
use vstd::seq_lib::{to_multiset_build, to_multiset_insert};
use crate::text::{chars_of, string_of};

verus! {

/// `a` comes before `b` in character order (a proper prefix comes first).
pub open spec fn name_lt(a: Seq<char>, b: Seq<char>) -> bool
    decreases a.len(),
{
    if a.len() == 0 {
        b.len() > 0
    } else if b.len() == 0 {
        false
    } else if (a[0] as u32) != (b[0] as u32) {
        (a[0] as u32) < (b[0] as u32)
    } else {
        name_lt(a.drop_first(), b.drop_first())
    }
}

/// No name is followed by a greater one.
pub open spec fn is_newest_first(s: Seq<Seq<char>>) -> bool {
    forall|i: int, j: int| 0 <= i < j < s.len() ==> !name_lt(#[trigger] s[i], #[trigger] s[j])
}

/// The views of a list of strings.
pub open spec fn views(v: Seq<String>) -> Seq<Seq<char>> {
    v.map_values(|s: String| s@)
}

/// Character order is asymmetric.
pub proof fn lemma_name_lt_asym(a: Seq<char>, b: Seq<char>)
    requires
        name_lt(a, b),
    ensures
        !name_lt(b, a),
    decreases a.len(),
{
    if a.len() > 0 && b.len() > 0 && (a[0] as u32) == (b[0] as u32) {
        lemma_name_lt_asym(a.drop_first(), b.drop_first());
    }
}

/// Whatever `b` is, `a < c` puts `b` above `a` or below `c`.
pub proof fn lemma_name_lt_split(a: Seq<char>, b: Seq<char>, c: Seq<char>)
    requires
        name_lt(a, c),
    ensures
        name_lt(a, b) || name_lt(b, c),
    decreases a.len(),
{
    if a.len() > 0 && b.len() > 0 && c.len() > 0 && (a[0] as u32) == (b[0] as u32) && (b[0] as u32) == (c[0] as u32) {
        lemma_name_lt_split(a.drop_first(), b.drop_first(), c.drop_first());
    }
}

/// Whether `a` comes before `b` in character order.
fn name_before(a: &Vec<char>, b: &Vec<char>) -> (r: bool)
    ensures
        r == name_lt(a@, b@),
{
    let mut i: usize = 0;
    assert(a@.subrange(0, a@.len() as int) =~= a@);
    assert(b@.subrange(0, b@.len() as int) =~= b@);
    while i < a.len() && i < b.len() && (a[i] as u32) == (b[i] as u32)
        invariant
            i <= a@.len(),
            i <= b@.len(),
            name_lt(a@, b@) == name_lt(a@.subrange(i as int, a@.len() as int), b@.subrange(i as int, b@.len() as int)),
        decreases a@.len() - i,
    {
        let ghost sa = a@.subrange(i as int, a@.len() as int);
        let ghost sb = b@.subrange(i as int, b@.len() as int);
        assert(sa.drop_first() =~= a@.subrange(i + 1, a@.len() as int));
        assert(sb.drop_first() =~= b@.subrange(i + 1, b@.len() as int));
        i += 1;
    }
    let ghost sa = a@.subrange(i as int, a@.len() as int);
    let ghost sb = b@.subrange(i as int, b@.len() as int);
    if i == a.len() {
        i < b.len()
    } else if i == b.len() {
        false
    } else {
        assert(sa[0] == a@[i as int] && sb[0] == b@[i as int]);
        (a[i] as u32) < (b[i] as u32)
    }
}

/// `names` in newest-first order: the same names, none followed by a greater one.
pub fn sort_newest_first(names: &Vec<String>) -> (r: Vec<String>)
    ensures
        views(r@).to_multiset() == views(names@).to_multiset(),
        is_newest_first(views(r@)),
{
    let ghost input = views(names@);
    let mut keys: Vec<Vec<char>> = Vec::new();
    let ghost mut g: Seq<Seq<char>> = Seq::empty();
    let mut i: usize = 0;
    assert(g =~= input.subrange(0, 0));
    while i < names.len()
        invariant
            i <= names@.len(),
            input == views(names@),
            keys@.len() == g.len(),
            forall|k: int| 0 <= k < g.len() ==> (#[trigger] keys@[k])@ == g[k],
            g.to_multiset() == input.subrange(0, i as int).to_multiset(),
            is_newest_first(g),
        decreases names@.len() - i,
    {
        let x = chars_of(names[i].as_str());
        let mut p: usize = 0;
        while p < keys.len() && !name_before(&keys[p], &x)
            invariant
                p <= keys@.len(),
                keys@.len() == g.len(),
                forall|k: int| 0 <= k < g.len() ==> (#[trigger] keys@[k])@ == g[k],
                forall|k: int| 0 <= k < p ==> !name_lt(#[trigger] g[k], x@),
            decreases keys@.len() - p,
        {
            p += 1;
        }
        proof {
            if p < g.len() {
                assert(name_lt(g[p as int], x@));
                lemma_name_lt_asym(g[p as int], x@);
                assert forall|k: int| p < k < g.len() implies !name_lt(x@, #[trigger] g[k]) by {
                    if name_lt(x@, g[k]) {
                        lemma_name_lt_split(x@, g[p as int], g[k]);
                    }
                }
            }
            to_multiset_insert(g, p as int, x@);
            assert(input.subrange(0, i + 1) =~= input.subrange(0, i as int).push(input[i as int]));
            to_multiset_build(input.subrange(0, i as int), input[i as int]);
        }
        let ghost old_g = g;
        proof {
            g = g.insert(p as int, x@);
        }
        keys.insert(p, x);
        assert forall|a: int, b: int| 0 <= a < b < g.len() implies !name_lt(#[trigger] g[a], #[trigger] g[b]) by {
            if a < p && b < p {
                assert(!name_lt(old_g[a], old_g[b]));
            } else if a < p && b == p {
            } else if a < p && b > p {
                assert(!name_lt(old_g[a], old_g[b - 1]));
            } else if a == p {
            } else {
                assert(!name_lt(old_g[a - 1], old_g[b - 1]));
            }
        }
        i += 1;
    }
    assert(input.subrange(0, names@.len() as int) =~= input);
    let mut out: Vec<String> = Vec::new();
    let mut k: usize = 0;
    while k < keys.len()
        invariant
            k <= keys@.len(),
            keys@.len() == g.len(),
            forall|j: int| 0 <= j < g.len() ==> (#[trigger] keys@[j])@ == g[j],
            views(out@) =~= g.subrange(0, k as int),
        decreases keys@.len() - k,
    {
        let ghost before = out@;
        let s = string_of(keys[k].as_slice());
        out.push(s);
        assert(views(out@) =~= views(before).push(g[k as int]));
        assert(g.subrange(0, k + 1) =~= g.subrange(0, k as int).push(g[k as int]));
        k += 1;
    }
    assert(views(out@) =~= g);
    out
}

} // verus!
