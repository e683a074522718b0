//! Paths that a model names, and the project root that they must not leave.
//!
//! A path is looked at by its parts, as the machine takes it apart: separators and
//! drives differ between machines. The file system itself is looked at by the caller
//! too, who hands in what exists and where it really is.
use vstd::prelude::*;

use crate::text::{cat, str_eq, trim, trimmed};
use crate::types::outcome;

verus! {

/// One part of a path.
#[derive(Debug, PartialEq, Eq)]
pub enum PathPart {
    /// A drive or a share.
    Prefix(String),
    /// The directory that everything lies in.
    Root,
    /// The directory itself, `.`.
    Current,
    /// The directory above, `..`.
    Parent,
    /// An entry of a directory.
    Name(String),
}

/// Model of [`PathPart`].
pub enum PathPartV {
    Prefix(Seq<char>),
    Root,
    Current,
    Parent,
    Name(Seq<char>),
}

impl View for PathPart {
    type V = PathPartV;

    open spec fn view(&self) -> PathPartV {
        match self {
            PathPart::Prefix(t) => PathPartV::Prefix(t.deep_view()),
            PathPart::Root => PathPartV::Root,
            PathPart::Current => PathPartV::Current,
            PathPart::Parent => PathPartV::Parent,
            PathPart::Name(t) => PathPartV::Name(t.deep_view()),
        }
    }
}

impl DeepView for PathPart {
    type V = PathPartV;

    open spec fn deep_view(&self) -> PathPartV {
        self@
    }
}

impl PathPart {
    /// An equal value.
    pub fn copy(&self) -> (r: PathPart)
        ensures
            r@ == self@,
    {
        match self {
            PathPart::Prefix(t) => PathPart::Prefix(t.clone()),
            PathPart::Root => PathPart::Root,
            PathPart::Current => PathPart::Current,
            PathPart::Parent => PathPart::Parent,
            PathPart::Name(t) => PathPart::Name(t.clone()),
        }
    }

    /// Whether two parts are equal.
    pub fn same(&self, other: &PathPart) -> (r: bool)
        ensures
            r == (self@ == other@),
    {
        match (self, other) {
            (PathPart::Prefix(a), PathPart::Prefix(b)) => str_eq(a.as_str(), b.as_str()),
            (PathPart::Root, PathPart::Root) => true,
            (PathPart::Current, PathPart::Current) => true,
            (PathPart::Parent, PathPart::Parent) => true,
            (PathPart::Name(a), PathPart::Name(b)) => str_eq(a.as_str(), b.as_str()),
            _ => false,
        }
    }
}

/// A path that a model names, as the machine takes it apart.
#[derive(Debug, PartialEq, Eq)]
pub enum NamedPath {
    /// A path that begins at the top, as where it really is; where nothing is there, as
    /// it is; or why where it is could not be told.
    Absolute(Result<Vec<PathPart>, String>),
    /// Any other path.
    Relative(Vec<PathPart>),
}

/// Model of [`NamedPath`].
pub enum NamedPathV {
    Absolute(Result<Seq<PathPartV>, Seq<char>>),
    Relative(Seq<PathPartV>),
}

impl View for NamedPath {
    type V = NamedPathV;

    open spec fn view(&self) -> NamedPathV {
        match self {
            NamedPath::Absolute(r) => NamedPathV::Absolute(outcome(*r)),
            NamedPath::Relative(p) => NamedPathV::Relative(p.deep_view()),
        }
    }
}

impl DeepView for NamedPath {
    type V = NamedPathV;

    open spec fn deep_view(&self) -> NamedPathV {
        self@
    }
}

/// The text of a path that a model names: what surrounds it does not count.
pub fn path_text(rel: &str) -> (r: String)
    ensures
        r@ == trimmed(rel@),
{
    trim(rel)
}

/// Passes the parts that lead somewhere else.
pub open spec fn leads_on() -> spec_fn(PathPartV) -> bool {
    |p: PathPartV| p != PathPartV::Current
}

/// Passes the entries of directories.
pub open spec fn is_name() -> spec_fn(PathPartV) -> bool {
    |p: PathPartV| p is Name
}

/// The parts that lead somewhere else.
pub fn leading_parts(parts: &Vec<PathPart>) -> (r: Vec<PathPart>)
    ensures
        r.deep_view() == parts.deep_view().filter(leads_on()),
{
    let ghost pv = parts.deep_view();
    let ghost p = leads_on();
    let mut out: Vec<PathPart> = Vec::new();
    let mut i: usize = 0;
    proof {
        crate::collections::filter_start(pv, p);
        assert(out.deep_view() =~= Seq::<PathPartV>::empty());
    }
    while i < parts.len()
        invariant
            i <= parts.len(),
            pv == parts.deep_view(),
            p == leads_on(),
            out.deep_view() == pv.take(i as int).filter(p),
        decreases parts.len() - i,
    {
        let ghost ov = out.deep_view();
        proof {
            crate::collections::filter_step(pv, i as int, p);
        }
        if !parts[i].same(&PathPart::Current) {
            out.push(parts[i].copy());
            assert(out.deep_view() =~= ov.push(pv[i as int]));
        }
        i += 1;
    }
    assert(pv.take(pv.len() as int) =~= pv);
    out
}

/// How many of the parts are entries of directories.
pub open spec fn names_in(parts: Seq<PathPartV>) -> nat {
    parts.filter(is_name()).len()
}

/// How many of the parts are entries of directories.
pub fn count_names(parts: &Vec<PathPart>) -> (r: usize)
    ensures
        r == names_in(parts.deep_view()),
        r <= parts.len(),
{
    let ghost pv = parts.deep_view();
    let ghost p = is_name();
    let mut n: usize = 0;
    let mut i: usize = 0;
    proof {
        crate::collections::filter_start(pv, p);
    }
    while i < parts.len()
        invariant
            i <= parts.len(),
            n <= i,
            pv == parts.deep_view(),
            p == is_name(),
            n == pv.take(i as int).filter(p).len(),
        decreases parts.len() - i,
    {
        proof {
            crate::collections::filter_step(pv, i as int, p);
        }
        let name = match &parts[i] {
            PathPart::Name(_) => true,
            _ => false,
        };
        assert(name == p(pv[i as int]));
        if name {
            n += 1;
        }
        i += 1;
    }
    assert(pv.take(pv.len() as int) =~= pv);
    n
}

/// Whether parts begin with others.
pub open spec fn within(parts: Seq<PathPartV>, root: Seq<PathPartV>) -> bool {
    root.len() <= parts.len() && parts.take(root.len() as int) == root
}

/// Whether parts begin with others.
pub fn is_within(parts: &Vec<PathPart>, root: &Vec<PathPart>) -> (r: bool)
    ensures
        r == within(parts.deep_view(), root.deep_view()),
{
    let ghost cv = parts.deep_view();
    let ghost rv = root.deep_view();
    if root.len() > parts.len() {
        return false;
    }
    let mut i: usize = 0;
    while i < root.len()
        invariant
            i <= root.len() <= parts.len(),
            cv == parts.deep_view(),
            rv == root.deep_view(),
            forall|k: int| 0 <= k < i ==> cv[k] == rv[k],
        decreases root.len() - i,
    {
        if !parts[i].same(&root[i]) {
            assert(cv.take(rv.len() as int)[i as int] == cv[i as int]);
            return false;
        }
        i += 1;
    }
    assert(cv.take(rv.len() as int) =~= rv);
    true
}

/// Whether parts go up anywhere.
pub open spec fn goes_up(parts: Seq<PathPartV>) -> bool {
    parts.contains(PathPartV::Parent)
}

fn has_parent(parts: &Vec<PathPart>) -> (r: bool)
    ensures
        r == goes_up(parts.deep_view()),
{
    let ghost pv = parts.deep_view();
    let mut i: usize = 0;
    while i < parts.len()
        invariant
            i <= parts.len(),
            pv == parts.deep_view(),
            forall|k: int| 0 <= k < i ==> pv[k] != PathPartV::Parent,
        decreases parts.len() - i,
    {
        if parts[i].same(&PathPart::Parent) {
            assert(pv[i as int] == PathPartV::Parent);
            return true;
        }
        i += 1;
    }
    false
}

/// How leaving the root is refused.
pub open spec fn escape_of(rel: Seq<char>) -> Seq<char> {
    "path escapes project root: "@ + rel
}

/// The parts below the root that a path stands for. `root` is where the root really is.
pub open spec fn target_below(root: Seq<PathPartV>, rel: Seq<char>, named: NamedPathV) -> Result<
    Seq<PathPartV>,
    Seq<char>,
> {
    let parts = match named {
        NamedPathV::Absolute(Err(e)) => Err("canonicalize failed: "@ + e),
        NamedPathV::Absolute(Ok(a)) => if within(a, root) {
            Ok(a.skip(root.len() as int))
        } else {
            Err(escape_of(rel))
        },
        NamedPathV::Relative(p) => Ok(p),
    };
    match parts {
        Ok(p) => if goes_up(p) {
            Err(escape_of(rel))
        } else {
            Ok(p.filter(leads_on()))
        },
        Err(e) => Err(e),
    }
}

/// The parts below the root that a path stands for.
pub fn locate(root: &Vec<PathPart>, rel: &str, named: &NamedPath) -> (r: Result<
    Vec<PathPart>,
    String,
>)
    ensures
        outcome(r) == target_below(root.deep_view(), rel@, named@),
{
    match named {
        NamedPath::Absolute(Err(e)) => Err(cat("canonicalize failed: ", e.as_str())),
        NamedPath::Absolute(Ok(a)) => {
            if !is_within(a, root) {
                return Err(cat("path escapes project root: ", rel));
            }
            let rest = below(a, root.len());
            if has_parent(&rest) {
                return Err(cat("path escapes project root: ", rel));
            }
            Ok(leading_parts(&rest))
        },
        NamedPath::Relative(p) => {
            if has_parent(p) {
                return Err(cat("path escapes project root: ", rel));
            }
            Ok(leading_parts(p))
        },
    }
}

/// The parts after the first `n`.
pub fn below(parts: &Vec<PathPart>, n: usize) -> (r: Vec<PathPart>)
    requires
        n <= parts.len(),
    ensures
        r.deep_view() == parts.deep_view().skip(n as int),
{
    let ghost cv = parts.deep_view();
    let mut out: Vec<PathPart> = Vec::new();
    let mut i: usize = n;
    while i < parts.len()
        invariant
            n <= i <= parts.len(),
            cv == parts.deep_view(),
            out.deep_view() == cv.subrange(n as int, i as int),
        decreases parts.len() - i,
    {
        let ghost ov = out.deep_view();
        out.push(parts[i].copy());
        assert(out.deep_view() =~= ov.push(cv[i as int]));
        assert(cv.subrange(n as int, i as int).push(cv[i as int]) =~= cv.subrange(
            n as int,
            i as int + 1,
        ));
        i += 1;
    }
    assert(cv.subrange(n as int, cv.len() as int) =~= cv.skip(n as int));
    out
}

/// The place of the nearest thing that exists: of the first entry that is there.
pub open spec fn nearest(found: Seq<Option<Result<Seq<PathPartV>, Seq<char>>>>) -> Option<int>
    decreases found.len(),
{
    if found.len() == 0 {
        None
    } else if found[0] is Some {
        Some(0)
    } else {
        match nearest(found.drop_first()) {
            Some(i) => Some(i + 1),
            None => None,
        }
    }
}

/// Where a path really leads. `found[k]` tells what is at the target without its
/// last `k` parts: nothing, where it really is, or why that could not be told.
/// What does not exist yet lies below the nearest thing that does.
pub open spec fn placed(
    root: Seq<PathPartV>,
    rel: Seq<char>,
    parts: Seq<PathPartV>,
    found: Seq<Option<Result<Seq<PathPartV>, Seq<char>>>>,
) -> Result<Seq<PathPartV>, Seq<char>> {
    match nearest(found) {
        None => Err("no existing ancestor for: "@ + rel),
        Some(k) => match found[k]->0 {
            Err(e) => Err(
                if k == 0 {
                    "canonicalize failed: "@ + e
                } else {
                    "canonicalize ancestor failed: "@ + e
                },
            ),
            Ok(base) => {
                let whole = base + parts.skip(parts.len() - k);
                if within(whole, root) {
                    Ok(whole)
                } else {
                    Err(escape_of(rel))
                }
            },
        },
    }
}

/// The model of what was found.
pub open spec fn found_model(found: Seq<Option<Result<Vec<PathPart>, String>>>) -> Seq<
    Option<Result<Seq<PathPartV>, Seq<char>>>,
> {
    found.map_values(
        |f: Option<Result<Vec<PathPart>, String>>|
            match f {
                Some(r) => Some(outcome(r)),
                None => None,
            },
    )
}

/// Where a path really leads.
pub fn place(
    root: &Vec<PathPart>,
    rel: &str,
    parts: &Vec<PathPart>,
    found: &Vec<Option<Result<Vec<PathPart>, String>>>,
) -> (r: Result<Vec<PathPart>, String>)
    requires
        found.len() <= parts.len() + 1,
    ensures
        outcome(r) == placed(root.deep_view(), rel@, parts.deep_view(), found_model(found@)),
{
    let ghost fv = found_model(found@);
    let ghost cv = parts.deep_view();
    let mut k: usize = 0;
    assert(fv.skip(0) =~= fv);
    while k < found.len()
        invariant
            k <= found.len() <= parts.len() + 1,
            fv == found_model(found@),
            cv == parts.deep_view(),
            nearest(fv) == match nearest(fv.skip(k as int)) {
                Some(i) => Some(i + k),
                None => None,
            },
        decreases found.len() - k,
    {
        assert(fv.skip(k as int)[0] == fv[k as int]);
        match &found[k] {
            Some(Ok(base)) => {
                let mut whole = below(base, 0);
                let ghost bv = base.deep_view();
                assert(bv.skip(0) =~= bv);
                let mut tail = below(parts, parts.len() - k);
                let ghost tv = tail.deep_view();
                whole.append(&mut tail);
                assert(whole.deep_view() =~= bv + tv);
                if is_within(&whole, root) {
                    return Ok(whole);
                }
                return Err(cat("path escapes project root: ", rel));
            },
            Some(Err(e)) => {
                return Err(
                    if k == 0 {
                        cat("canonicalize failed: ", e.as_str())
                    } else {
                        cat("canonicalize ancestor failed: ", e.as_str())
                    },
                );
            },
            None => {},
        }
        assert(fv.skip(k as int).drop_first() =~= fv.skip(k as int + 1));
        k += 1;
    }
    Err(cat("no existing ancestor for: ", rel))
}

/// Where a path that a model names leads, below the root or not at all. `root` is
/// where the root really is, or why that could not be told.
pub open spec fn resolution(
    root: Result<Seq<PathPartV>, Seq<char>>,
    rel: Seq<char>,
    named: NamedPathV,
    found: Seq<Option<Result<Seq<PathPartV>, Seq<char>>>>,
) -> Result<Seq<PathPartV>, Seq<char>> {
    match root {
        Err(e) => Err("project root canonicalize failed: "@ + e),
        Ok(root) => match target_below(root, rel, named) {
            Err(e) => Err(e),
            Ok(parts) => placed(root, rel, parts, found),
        },
    }
}

/// Where a path that a model names leads. `None` where more was found than the path
/// has names for.
pub fn resolve_under_root(
    root: &Result<Vec<PathPart>, String>,
    rel: &str,
    named: &NamedPath,
    found: &Vec<Option<Result<Vec<PathPart>, String>>>,
) -> (r: Option<Result<Vec<PathPart>, String>>)
    ensures
        match r {
            Some(x) => outcome(x) == resolution(
                outcome(*root),
                rel@,
                named@,
                found_model(found@),
            ),
            None => {
                &&& outcome(*root) matches Ok(base) && target_below(base, rel@, named@) matches Ok(
                    parts,
                ) && found@.len() > names_in(parts) + 1
            },
        },
{
    let base = match root {
        Ok(b) => b,
        Err(e) => {
            return Some(Err(cat("project root canonicalize failed: ", e.as_str())));
        },
    };
    let parts = match locate(base, rel, named) {
        Ok(c) => c,
        Err(e) => {
            return Some(Err(e));
        },
    };
    let names: usize = count_names(&parts);
    if found.len() > names && found.len() - 1 > names {
        return None;
    }
    Some(place(base, rel, &parts, found))
}

/// What a path leads to never lies outside the root, whatever the file system holds:
/// neither `..` nor an absolute path nor a link leads out of it.
pub proof fn paths_stay_under_the_root(
    root: Seq<PathPartV>,
    rel: Seq<char>,
    named: NamedPathV,
    found: Seq<Option<Result<Seq<PathPartV>, Seq<char>>>>,
)
    requires
        resolution(Ok(root), rel, named, found) is Ok,
    ensures
        within(resolution(Ok(root), rel, named, found)->Ok_0, root),
{
}

/// A path that goes up is refused, wherever it would lead.
pub proof fn going_up_is_refused(
    root: Seq<PathPartV>,
    rel: Seq<char>,
    parts: Seq<PathPartV>,
    found: Seq<Option<Result<Seq<PathPartV>, Seq<char>>>>,
)
    requires
        goes_up(parts),
    ensures
        resolution(Ok(root), rel, NamedPathV::Relative(parts), found) == Err::<
            Seq<PathPartV>,
            Seq<char>,
        >(escape_of(rel)),
{
}

/// The root itself, named by nothing or by a dot, leads to the root.
pub proof fn the_root_names_itself(root: Seq<PathPartV>, rel: Seq<char>)
    ensures
        resolution(Ok(root), rel, NamedPathV::Relative(Seq::empty()), seq![Some(Ok(root))]) == Ok::<
            Seq<PathPartV>,
            Seq<char>,
        >(root),
        resolution(
            Ok(root),
            rel,
            NamedPathV::Relative(seq![PathPartV::Current]),
            seq![Some(Ok(root))],
        ) == Ok::<Seq<PathPartV>, Seq<char>>(root),
{
    reveal_with_fuel(Seq::filter, 2);
    let none = Seq::<PathPartV>::empty();
    let dot = seq![PathPartV::Current];
    assert(dot.drop_last() =~= none);
    assert(none.filter(leads_on()) =~= none);
    assert(dot.filter(leads_on()) =~= none);
    let found: Seq<Option<Result<Seq<PathPartV>, Seq<char>>>> = seq![Some(Ok(root))];
    assert(nearest(found) == Some(0int));
    assert(root + none.skip(0) =~= root);
    assert(root.take(root.len() as int) =~= root);
}

/// What a file system holds: at a path there is nothing, or something that really is
/// somewhere, or something of which that cannot be told.
pub type World = spec_fn(Seq<PathPartV>) -> Option<Result<Seq<PathPartV>, Seq<char>>>;

/// Whether a path names where something really is.
pub open spec fn is_real(world: World, path: Seq<PathPartV>) -> bool {
    world(path) == Some(Ok::<Seq<PathPartV>, Seq<char>>(path)) && forall|i: int|
        0 <= i < path.len() ==> (#[trigger] path[i]) is Name || path[i] is Root || path[i] is Prefix
}

/// Whether places are told as where things really are.
pub open spec fn tells_real_places(world: World) -> bool {
    forall|p: Seq<PathPartV>|
        (#[trigger] world(p)) matches Some(Ok(place)) ==> is_real(world, place)
}

/// What is found at parts below the root: at all of them, then without the last, and so
/// on up to the root.
pub open spec fn found_in(world: World, root: Seq<PathPartV>, parts: Seq<PathPartV>) -> Seq<
    Option<Result<Seq<PathPartV>, Seq<char>>>,
> {
    Seq::new(parts.len() + 1, |k: int| world(root + parts.take(parts.len() - k)))
}

/// A path in a file system: an absolute one is told as where it really is.
pub open spec fn named_in(world: World, path: Seq<PathPartV>, absolute: bool) -> NamedPathV {
    if absolute {
        NamedPathV::Absolute(
            match world(path) {
                Some(r) => r,
                None => Ok(path),
            },
        )
    } else {
        NamedPathV::Relative(path)
    }
}

/// Where a path that a model names leads in a file system, with the root where it
/// really is.
pub open spec fn resolved_in(
    world: World,
    root: Seq<PathPartV>,
    rel: Seq<char>,
    path: Seq<PathPartV>,
    absolute: bool,
) -> Result<Seq<PathPartV>, Seq<char>> {
    let named = named_in(world, path, absolute);
    match target_below(root, rel, named) {
        Ok(parts) => resolution(Ok(root), rel, named, found_in(world, root, parts)),
        Err(e) => Err(e),
    }
}

proof fn lemma_filter_keeps_all(parts: Seq<PathPartV>)
    requires
        forall|i: int| 0 <= i < parts.len() ==> #[trigger] parts[i] != PathPartV::Current,
    ensures
        parts.filter(leads_on()) == parts,
    decreases parts.len(),
{
    reveal(Seq::filter);
    if parts.len() > 0 {
        let rest = parts.drop_last();
        assert forall|i: int| 0 <= i < rest.len() implies #[trigger] rest[i]
            != PathPartV::Current by {
            assert(rest[i] == parts[i]);
        }
        lemma_filter_keeps_all(rest);
        assert(parts.last() == parts[parts.len() - 1]);
        assert(rest.push(parts.last()) =~= parts);
    } else {
        assert(parts.filter(leads_on()) =~= parts);
    }
}

/// Whether a relative path goes down and nowhere else: its parts are entries of
/// directories, with `.` between them or before them.
pub open spec fn goes_down(parts: Seq<PathPartV>) -> bool {
    forall|i: int|
        0 <= i < parts.len() ==> (#[trigger] parts[i]) is Name || parts[i] == PathPartV::Current
}

/// An absolute path under the root leads where its relative form leads, whether that is
/// written with or without `.`, and nowhere where that leads nowhere, in every file
/// system that tells where things really are.
pub proof fn absolute_paths_lead_where_relative_ones_do(
    world: World,
    root: Seq<PathPartV>,
    long: Seq<char>,
    short: Seq<char>,
    path: Seq<PathPartV>,
    place: Seq<PathPartV>,
)
    requires
        tells_real_places(world),
        is_real(world, root),
        goes_down(path),
    ensures
        resolved_in(world, root, long, root + path.filter(leads_on()), true) == Ok::<
            Seq<PathPartV>,
            Seq<char>,
        >(place) <==> resolved_in(world, root, short, path, false) == Ok::<Seq<PathPartV>, Seq<char>>(
            place,
        ),
{
    let n = root.len() as int;
    let names = path.filter(leads_on());
    crate::collections::filter_members(path, leads_on());
    assert forall|i: int| 0 <= i < names.len() implies #[trigger] names[i] != PathPartV::Current
        && names[i] != PathPartV::Parent by {
        assert(names.contains(names[i]));
        assert(path.contains(names[i]));
    }
    lemma_filter_keeps_all(names);
    assert(!goes_up(names));
    assert(!goes_up(path));
    let found = found_in(world, root, names);
    assert(names.take(names.len() as int) =~= names);
    assert(found[0] == world(root + names));
    assert((root + names).take(n) =~= root);
    assert((root + names).skip(n) =~= names);
    match world(root + names) {
        None => {},
        Some(Err(_)) => {
            assert(nearest(found) == Some(0int));
        },
        Some(Ok(c)) => {
            assert(nearest(found) == Some(0int));
            assert(is_real(world, c));
            assert(c + names.skip(names.len() as int) =~= c);
            if within(c, root) {
                let rest = c.skip(n);
                assert(root + rest =~= c);
                assert forall|i: int| 0 <= i < rest.len() implies #[trigger] rest[i]
                    != PathPartV::Current && rest[i] != PathPartV::Parent by {
                    assert(rest[i] == c[i + n]);
                }
                lemma_filter_keeps_all(rest);
                assert(!goes_up(rest));
                let there = found_in(world, root, rest);
                assert(rest.take(rest.len() as int) =~= rest);
                assert(there[0] == world(c));
                assert(nearest(there) == Some(0int));
                assert(c + rest.skip(rest.len() as int) =~= c);
            }
        },
    }
}

} // verus!
