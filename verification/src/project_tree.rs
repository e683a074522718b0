//! The listing of a project's files that a model is shown.
use vstd::prelude::*;

use crate::collections::{filter_start, filter_step};
use crate::order::{by_text, sort_texts, sorted, sorting_forgets_order, sorting_rearranges, texts_are_ordered};
use crate::text::{cat, cat4, dec, join, joined, u64_dec};

verus! {

/// How many files are listed where nothing else is asked for.
pub const DEFAULT_MAX_ENTRIES: usize = 400;

/// Passes the paths that name something.
pub open spec fn named() -> spec_fn(Seq<char>) -> bool {
    |rel: Seq<char>| rel.len() > 0
}

/// The paths of files, as they are shown.
pub open spec fn shown_paths(rels: Seq<Seq<char>>) -> Seq<Seq<char>> {
    rels.filter(named()).map_values(|rel: Seq<char>| "./"@ + rel)
}

/// The paths that are looked at: at most four times as many as are listed, and one
/// more.
pub open spec fn looked_at(rels: Seq<Seq<char>>, max: nat) -> Seq<Seq<char>> {
    let all = shown_paths(rels);
    if all.len() > 4 * max {
        all.take((4 * max + 1) as int)
    } else {
        all
    }
}

/// How many files are listed: one at least.
pub open spec fn cap_of(max_entries: usize) -> nat {
    if max_entries == 0 {
        1
    } else {
        max_entries as nat
    }
}

/// The listing: the paths in order, one a line, and a word where there are more.
pub open spec fn tree_text(rels: Seq<Seq<char>>, max: nat) -> Seq<char> {
    let all = sorted(looked_at(rels, max), by_text());
    if all.len() == 0 {
        "(project is empty)"@
    } else if all.len() > max {
        joined(all.take(max as int), "\n"@) + "\n… (listing truncated at "@ + dec(max)
            + " entries; use list_dir for deeper subtrees)"@
    } else {
        joined(all, "\n"@)
    }
}

/// The listing of files, given their paths below the root in the order in which they
/// were come upon.
pub fn render_project_tree(rels: &Vec<String>, max_entries: usize) -> (r: String)
    ensures
        r@ == tree_text(rels.deep_view(), cap_of(max_entries)),
{
    let max: usize = if max_entries == 0 {
        1
    } else {
        max_entries
    };
    let ghost rv = rels.deep_view();
    let ghost p = named();
    let ghost all = shown_paths(rv);
    let mut found: Vec<String> = Vec::new();
    let mut i: usize = 0;
    let mut full = false;
    proof {
        filter_start(rv, p);
        assert(found.deep_view() =~= shown_paths(rv.take(0)));
    }
    while i < rels.len() && !full
        invariant
            i <= rels.len(),
            max == cap_of(max_entries),
            p == named(),
            rv == rels.deep_view(),
            found.deep_view() == shown_paths(rv.take(i as int)),
            full == (found.len() > 4 * max),
            full ==> found.len() == 4 * max + 1,
        decreases rels.len() - i,
    {
        let ghost fv = found.deep_view();
        proof {
            filter_step(rv, i as int, p);
        }
        if !rels[i].as_str().is_empty() {
            let shown = cat("./", rels[i].as_str());
            found.push(shown);
            proof {
                assert(found.deep_view() =~= fv.push("./"@ + rv[i as int]));
                assert(shown_paths(rv.take(i as int + 1)) =~= fv.push("./"@ + rv[i as int]));
            }
            full = match max.checked_mul(4) {
                Some(limit) => found.len() > limit,
                None => false,
            };
        } else {
            assert(shown_paths(rv.take(i as int + 1)) =~= fv);
        }
        i += 1;
    }
    proof {
        if full {
            lemma_shown_grows(rv, i as int, rv.len() as int);
            assert(rv.take(rv.len() as int) =~= rv);
            assert(found.deep_view() =~= looked_at(rv, max as nat));
        } else {
            assert(rv.take(i as int) =~= rv);
        }
    }
    assert(found.deep_view() == looked_at(rv, max as nat));
    let mut entries = sort_texts(&found);
    if entries.len() == 0 {
        return "(project is empty)".to_owned();
    }
    let more = entries.len() > max;
    if more {
        let ghost ev = entries.deep_view();
        entries.truncate(max);
        assert(entries.deep_view() =~= ev.take(max as int));
    }
    let body = join(&entries, "\n");
    if more {
        let n = u64_dec(max as u64);
        cat4(
            body.as_str(),
            "\n… (listing truncated at ",
            n.as_str(),
            " entries; use list_dir for deeper subtrees)",
        )
    } else {
        body
    }
}

proof fn lemma_shown_grows(rels: Seq<Seq<char>>, i: int, n: int)
    requires
        0 <= i <= n <= rels.len(),
    ensures
        shown_paths(rels.take(i)).len() <= shown_paths(rels.take(n)).len(),
        shown_paths(rels.take(n)).take(shown_paths(rels.take(i)).len() as int) == shown_paths(
            rels.take(i),
        ),
    decreases n,
{
    let a = shown_paths(rels.take(i));
    let b = shown_paths(rels.take(n));
    if i < n {
        lemma_shown_grows(rels, i, n - 1);
        filter_step(rels, n - 1, named());
        let m = shown_paths(rels.take(n - 1));
        if named()(rels[n - 1]) {
            assert(b =~= m.push("./"@ + rels[n - 1]));
        } else {
            assert(b =~= m);
        }
        assert(b.take(a.len() as int) =~= m.take(a.len() as int));
    } else {
        assert(b.take(a.len() as int) =~= a);
    }
}

/// The listing with the usual number of files.
pub fn render_project_tree_default(rels: &Vec<String>) -> (r: String)
    ensures
        r@ == tree_text(rels.deep_view(), DEFAULT_MAX_ENTRIES as nat),
{
    render_project_tree(rels, DEFAULT_MAX_ENTRIES)
}

/// What a prompt says of a project: its tree, or that its files could not be listed.
pub open spec fn project_description(rels: Option<Seq<Seq<char>>>) -> Seq<char> {
    match rels {
        Some(r) => tree_text(r, DEFAULT_MAX_ENTRIES as nat),
        None => "(failed to enumerate project)"@,
    }
}

/// What a prompt says of a project, given its files where they could be listed.
pub fn describe_project(rels: Option<&Vec<String>>) -> (r: String)
    ensures
        r@ == project_description(
            match rels {
                Some(v) => Some(v.deep_view()),
                None => None,
            },
        ),
{
    match rels {
        Some(v) => render_project_tree_default(v),
        None => "(failed to enumerate project)".to_owned(),
    }
}

/// As long as not too many files are come upon, the order in which that happens does
/// not show.
pub proof fn the_walk_does_not_show(a: Seq<Seq<char>>, b: Seq<Seq<char>>, max: nat)
    requires
        shown_paths(a).to_multiset() == shown_paths(b).to_multiset(),
        shown_paths(a).len() <= 4 * max,
    ensures
        tree_text(a, max) == tree_text(b, max),
{
    let x = shown_paths(a);
    let y = shown_paths(b);
    x.to_multiset_ensures();
    y.to_multiset_ensures();
    texts_are_ordered();
    sorting_forgets_order(x, y, by_text());
}

/// A project without files is said to be empty, and only such a project.
pub proof fn only_empty_projects_are_empty(rels: Seq<Seq<char>>, max: nat)
    ensures
        sorted(looked_at(rels, max), by_text()).len() == 0 <==> shown_paths(rels).len() == 0,
{
    let l = looked_at(rels, max);
    sorting_rearranges(l, by_text());
    l.to_multiset_ensures();
    sorted(l, by_text()).to_multiset_ensures();
}

} // verus!
