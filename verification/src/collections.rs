//! Small ordered sets and maps keyed by strings.
//!
//! A set is the list of its members in the order in which they came; a map is
//! the list of its entries. Their operations are stated over those lists.
use vstd::prelude::*;

use crate::text::str_eq;

verus! {

/// A set with one more member; unchanged where it was there before.
pub open spec fn with_member<T>(s: Seq<T>, x: T) -> Seq<T> {
    if s.contains(x) {
        s
    } else {
        s.push(x)
    }
}

/// Whether no member occurs twice.
pub open spec fn distinct<T>(s: Seq<T>) -> bool {
    forall|i: int, j: int| 0 <= i < j < s.len() ==> s[i] != s[j]
}

/// The keys of a map.
pub open spec fn keys<V>(m: Seq<(Seq<char>, V)>) -> Seq<Seq<char>> {
    m.map_values(|e: (Seq<char>, V)| e.0)
}

/// The value under a key: that of its first entry.
pub open spec fn assoc<V>(m: Seq<(Seq<char>, V)>, key: Seq<char>) -> Option<V>
    decreases m.len(),
{
    if m.len() == 0 {
        None
    } else if m[0].0 == key {
        Some(m[0].1)
    } else {
        assoc(m.drop_first(), key)
    }
}

/// Filtering nothing gives nothing.
pub proof fn filter_start<T>(s: Seq<T>, p: spec_fn(T) -> bool)
    ensures
        s.take(0).filter(p) == Seq::<T>::empty(),
{
    reveal(Seq::filter);
    assert(s.take(0).filter(p) =~= Seq::<T>::empty());
}

/// Filtering one element more appends it where it passes.
pub proof fn filter_step<T>(s: Seq<T>, i: int, p: spec_fn(T) -> bool)
    requires
        0 <= i < s.len(),
    ensures
        s.take(i + 1).filter(p) == (if p(s[i]) {
            s.take(i).filter(p).push(s[i])
        } else {
            s.take(i).filter(p)
        }),
{
    reveal(Seq::filter);
    assert(s.take(i + 1).drop_last() =~= s.take(i));
    assert(s.take(i + 1).last() == s[i]);
}

/// Passes the entries that have another key.
pub open spec fn other_key<V>(key: Seq<char>) -> spec_fn((Seq<char>, V)) -> bool {
    |e: (Seq<char>, V)| e.0 != key
}

/// The entries that have another key.
pub open spec fn without_key<V>(m: Seq<(Seq<char>, V)>, key: Seq<char>) -> Seq<(Seq<char>, V)> {
    m.filter(other_key(key))
}

/// A map in which `key` stands, last, for `value`.
pub open spec fn with_entry<V>(m: Seq<(Seq<char>, V)>, key: Seq<char>, value: V) -> Seq<
    (Seq<char>, V),
> {
    without_key(m, key).push((key, value))
}

/// The place of the smallest stamp; the first one where several are smallest.
pub open spec fn oldest(m: Seq<(Seq<char>, i64)>) -> int
    decreases m.len(),
{
    if m.len() <= 1 {
        0
    } else {
        let i = oldest(m.drop_last());
        if m.last().1 < m[i].1 {
            m.len() - 1
        } else {
            i
        }
    }
}

/// The map without its oldest entries, so that at most `cap` are left.
pub open spec fn pruned(m: Seq<(Seq<char>, i64)>, cap: nat) -> Seq<(Seq<char>, i64)>
    decreases m.len(),
{
    if m.len() <= cap || m.len() == 0 {
        m
    } else {
        proof {
            lemma_oldest_in_range(m);
        }
        pruned(m.remove(oldest(m)), cap)
    }
}

/// Passes the entries stamped less than `ttl` before `now`.
pub open spec fn younger(now: i64, ttl: int) -> spec_fn((Seq<char>, i64)) -> bool {
    |e: (Seq<char>, i64)| age(now, e.1) < ttl
}

/// The entries stamped less than `ttl` before `now`.
pub open spec fn fresh(m: Seq<(Seq<char>, i64)>, now: i64, ttl: int) -> Seq<(Seq<char>, i64)> {
    m.filter(younger(now, ttl))
}

/// The time from `then` to `now`, kept in the range of `i64`.
pub open spec fn age(now: i64, then: i64) -> int {
    if now - then > i64::MAX {
        i64::MAX as int
    } else if now - then < i64::MIN {
        i64::MIN as int
    } else {
        now - then
    }
}

/// The time from `then` to `now`.
pub fn elapsed(now: i64, then: i64) -> (r: i64)
    ensures
        r == age(now, then),
{
    let d: i128 = now as i128 - then as i128;
    if d > i64::MAX as i128 {
        i64::MAX
    } else if d < i64::MIN as i128 {
        i64::MIN
    } else {
        d as i64
    }
}

/// Whether `x` is a member.
pub fn set_has(s: &Vec<String>, x: &str) -> (r: bool)
    ensures
        r == s.deep_view().contains(x@),
{
    let ghost sv = s.deep_view();
    let mut i: usize = 0;
    while i < s.len()
        invariant
            i <= s.len(),
            sv == s.deep_view(),
            forall|k: int| 0 <= k < i ==> sv[k] != x@,
        decreases s.len() - i,
    {
        if str_eq(s[i].as_str(), x) {
            assert(sv[i as int] == x@);
            return true;
        }
        i += 1;
    }
    false
}

/// Adds a member; tells whether it is new.
pub fn set_add(s: &mut Vec<String>, x: &str) -> (r: bool)
    ensures
        final(s).deep_view() == with_member(old(s).deep_view(), x@),
        r == !old(s).deep_view().contains(x@),
{
    if set_has(s, x) {
        false
    } else {
        let ghost before = s.deep_view();
        s.push(x.to_owned());
        assert(s.deep_view() =~= before.push(x@));
        true
    }
}

/// Passes the members that differ from `x`.
pub open spec fn other_member(x: Seq<char>) -> spec_fn(Seq<char>) -> bool {
    |y: Seq<char>| y != x
}

/// The members that differ from `x`.
pub open spec fn without_member(s: Seq<Seq<char>>, x: Seq<char>) -> Seq<Seq<char>> {
    s.filter(other_member(x))
}

/// Takes a member out; tells whether it was there.
pub fn set_remove(s: &mut Vec<String>, x: &str) -> (r: bool)
    ensures
        final(s).deep_view() == without_member(old(s).deep_view(), x@),
        r == old(s).deep_view().contains(x@),
{
    let found = set_has(s, x);
    let ghost sv = s.deep_view();
    let ghost p = other_member(x@);
    let mut out: Vec<String> = Vec::new();
    let mut i: usize = 0;
    proof {
        filter_start(sv, p);
        assert(sv.take(0) =~= Seq::<Seq<char>>::empty());
        assert(out.deep_view() =~= Seq::<Seq<char>>::empty());
    }
    while i < s.len()
        invariant
            i <= s.len(),
            sv == s.deep_view(),
            p == other_member(x@),
            out.deep_view() == sv.take(i as int).filter(p),
        decreases s.len() - i,
    {
        let ghost ov = out.deep_view();
        proof {
            filter_step(sv, i as int, p);
        }
        if !str_eq(s[i].as_str(), x) {
            out.push(s[i].clone());
            assert(out.deep_view() =~= ov.push(sv[i as int]));
        }
        i += 1;
    }
    assert(sv.take(sv.len() as int) =~= sv);
    *s = out;
    found
}

/// The value under a key.
pub fn map_get(m: &Vec<(String, i64)>, key: &str) -> (r: Option<i64>)
    ensures
        r == assoc(m.deep_view(), key@),
{
    let ghost mv = m.deep_view();
    let mut i: usize = 0;
    assert(mv.skip(0) =~= mv);
    while i < m.len()
        invariant
            i <= m.len(),
            mv == m.deep_view(),
            assoc(mv, key@) == assoc(mv.skip(i as int), key@),
        decreases m.len() - i,
    {
        assert(mv.skip(i as int)[0] == mv[i as int]);
        if str_eq(m[i].0.as_str(), key) {
            return Some(m[i].1);
        }
        assert(mv.skip(i as int).drop_first() =~= mv.skip(i as int + 1));
        i += 1;
    }
    None
}

/// Whether a key stands in the map.
pub fn map_has(m: &Vec<(String, i64)>, key: &str) -> (r: bool)
    ensures
        r == assoc(m.deep_view(), key@) is Some,
{
    map_get(m, key).is_some()
}

/// Takes the entries of a key out.
pub fn map_remove(m: &mut Vec<(String, i64)>, key: &str)
    ensures
        final(m).deep_view() == without_key(old(m).deep_view(), key@),
{
    let ghost mv = m.deep_view();
    let ghost p = other_key::<i64>(key@);
    let mut out: Vec<(String, i64)> = Vec::new();
    let mut i: usize = 0;
    proof {
        filter_start(mv, p);
        assert(mv.take(0) =~= Seq::<(Seq<char>, i64)>::empty());
        assert(out.deep_view() =~= Seq::<(Seq<char>, i64)>::empty());
    }
    while i < m.len()
        invariant
            i <= m.len(),
            mv == m.deep_view(),
            p == other_key::<i64>(key@),
            out.deep_view() == mv.take(i as int).filter(p),
        decreases m.len() - i,
    {
        let ghost ov = out.deep_view();
        proof {
            filter_step(mv, i as int, p);
        }
        if !str_eq(m[i].0.as_str(), key) {
            out.push((m[i].0.clone(), m[i].1));
            assert(out.deep_view() =~= ov.push(mv[i as int]));
        }
        i += 1;
    }
    assert(mv.take(mv.len() as int) =~= mv);
    *m = out;
}

/// Puts an entry in, in place of any other under its key.
pub fn map_put(m: &mut Vec<(String, i64)>, key: &str, value: i64)
    ensures
        final(m).deep_view() == with_entry(old(m).deep_view(), key@, value),
{
    map_remove(m, key);
    let ghost before = m.deep_view();
    m.push((key.to_owned(), value));
    assert(m.deep_view() =~= before.push((key@, value)));
}

/// Keeps the entries stamped less than `ttl` before `now`.
pub fn map_keep_fresh(m: &mut Vec<(String, i64)>, now: i64, ttl: i64)
    ensures
        final(m).deep_view() == fresh(old(m).deep_view(), now, ttl as int),
{
    let ghost mv = m.deep_view();
    let ghost p = younger(now, ttl as int);
    let mut out: Vec<(String, i64)> = Vec::new();
    let mut i: usize = 0;
    proof {
        filter_start(mv, p);
        assert(mv.take(0) =~= Seq::<(Seq<char>, i64)>::empty());
        assert(out.deep_view() =~= Seq::<(Seq<char>, i64)>::empty());
    }
    while i < m.len()
        invariant
            i <= m.len(),
            mv == m.deep_view(),
            p == younger(now, ttl as int),
            out.deep_view() == mv.take(i as int).filter(p),
        decreases m.len() - i,
    {
        let ghost ov = out.deep_view();
        proof {
            filter_step(mv, i as int, p);
        }
        if elapsed(now, m[i].1) < ttl {
            out.push((m[i].0.clone(), m[i].1));
            assert(out.deep_view() =~= ov.push(mv[i as int]));
        }
        i += 1;
    }
    assert(mv.take(mv.len() as int) =~= mv);
    *m = out;
}

/// `oldest` points into a map that is not empty.
pub proof fn lemma_oldest_in_range(m: Seq<(Seq<char>, i64)>)
    requires
        m.len() > 0,
    ensures
        0 <= oldest(m) < m.len(),
    decreases m.len(),
{
    if m.len() > 1 {
        lemma_oldest_in_range(m.drop_last());
    }
}

/// No entry is stamped before the oldest one.
pub proof fn oldest_is_smallest(m: Seq<(Seq<char>, i64)>)
    requires
        m.len() > 0,
    ensures
        0 <= oldest(m) < m.len(),
        forall|i: int| 0 <= i < m.len() ==> m[oldest(m)].1 <= (#[trigger] m[i]).1,
    decreases m.len(),
{
    if m.len() > 1 {
        let d = m.drop_last();
        oldest_is_smallest(d);
        assert forall|i: int| 0 <= i < m.len() implies m[oldest(m)].1 <= (#[trigger] m[i]).1 by {
            if i < m.len() - 1 {
                assert(d[oldest(d)].1 <= d[i].1);
            }
        }
    }
}

/// Pruning leaves at most `cap` entries and changes nothing that already fits.
pub proof fn pruning_caps(m: Seq<(Seq<char>, i64)>, cap: nat)
    ensures
        pruned(m, cap).len() <= cap || m.len() == 0,
        m.len() <= cap ==> pruned(m, cap) == m,
        m.len() > cap ==> pruned(m, cap).len() == cap,
    decreases m.len(),
{
    if m.len() > cap {
        lemma_oldest_in_range(m);
        pruning_caps(m.remove(oldest(m)), cap);
    }
}

/// What pruning takes out is never stamped later than what it keeps.
pub proof fn pruning_keeps_newest(m: Seq<(Seq<char>, i64)>, cap: nat, i: int)
    requires
        0 <= i < m.len(),
        !pruned(m, cap).contains(m[i]),
    ensures
        forall|j: int| 0 <= j < pruned(m, cap).len() ==> m[i].1 <= (#[trigger] pruned(m, cap)[j]).1,
    decreases m.len(),
{
    if m.len() <= cap {
        assert(m.contains(m[i]));
    } else {
        let o = oldest(m);
        oldest_is_smallest(m);
        let rest = m.remove(o);
        if i == o {
            lemma_pruned_within(rest, cap);
            assert forall|j: int| 0 <= j < pruned(m, cap).len() implies m[i].1 <= (
            #[trigger] pruned(m, cap)[j]).1 by {
                assert(rest.contains(pruned(rest, cap)[j]));
                let k = choose|k: int| 0 <= k < rest.len() && rest[k] == pruned(rest, cap)[j];
                assert(m[if k < o {
                    k
                } else {
                    k + 1
                }] == rest[k]);
            }
        } else {
            let k = if i < o {
                i
            } else {
                i - 1
            };
            assert(rest[k] == m[i]);
            pruning_keeps_newest(rest, cap, k);
        }
    }
}

/// Pruning only takes out.
pub proof fn lemma_pruned_within(m: Seq<(Seq<char>, i64)>, cap: nat)
    ensures
        forall|j: int| 0 <= j < pruned(m, cap).len() ==> m.contains(#[trigger] pruned(m, cap)[j]),
    decreases m.len(),
{
    if m.len() > cap {
        let o = oldest(m);
        lemma_oldest_in_range(m);
        let rest = m.remove(o);
        lemma_pruned_within(rest, cap);
        assert forall|j: int| 0 <= j < pruned(m, cap).len() implies m.contains(
            #[trigger] pruned(m, cap)[j],
        ) by {
            let k = choose|k: int| 0 <= k < rest.len() && rest[k] == pruned(rest, cap)[j];
            assert(m[if k < o {
                k
            } else {
                k + 1
            }] == rest[k]);
        }
    }
}

/// Takes the oldest entries out until at most `cap` are left.
pub fn prune_replied_map(m: &mut Vec<(String, i64)>, cap: usize)
    ensures
        final(m).deep_view() == pruned(old(m).deep_view(), cap as nat),
{
    let ghost start = m.deep_view();
    while m.len() > cap
        invariant
            pruned(start, cap as nat) == pruned(m.deep_view(), cap as nat),
        decreases m.len(),
    {
        let ghost mv = m.deep_view();
        let mut best: usize = 0;
        let mut i: usize = 1;
        proof {
            assert(mv.len() == m@.len());
            assert(mv.take(1).len() == 1);
        }
        while i < m.len()
            invariant
                1 <= i <= m.len(),
                best < i,
                mv == m.deep_view(),
                best as int == oldest(mv.take(i as int)),
            decreases m.len() - i,
        {
            proof {
                let t = mv.take(i as int + 1);
                assert(t.drop_last() =~= mv.take(i as int));
                assert(t.last() == mv[i as int]);
                assert(t[best as int] == mv[best as int]);
            }
            if m[i].1 < m[best].1 {
                best = i;
            }
            i += 1;
        }
        assert(mv.take(mv.len() as int) =~= mv);
        let _ = m.remove(best);
        assert(m.deep_view() =~= mv.remove(best as int));
    }
}

/// Setting an entry makes it the one that its key stands for.
pub proof fn entry_reads_back<V>(m: Seq<(Seq<char>, V)>, key: Seq<char>, value: V)
    ensures
        assoc(with_entry(m, key, value), key) == Some(value),
{
    lemma_assoc_without(m, key);
    lemma_assoc_push(without_key(m, key), key, value);
}

/// A key that was taken out stands for nothing.
pub proof fn lemma_assoc_without<V>(m: Seq<(Seq<char>, V)>, key: Seq<char>)
    ensures
        assoc(without_key(m, key), key) is None,
    decreases m.len(),
{
    let p = other_key::<V>(key);
    reveal(Seq::filter);
    if m.len() > 0 {
        let d = m.drop_last();
        lemma_assoc_without(d, key);
        if p(m.last()) {
            lemma_assoc_push_other(d.filter(p), m.last(), key);
        }
    }
}

proof fn lemma_assoc_push<V>(m: Seq<(Seq<char>, V)>, key: Seq<char>, value: V)
    requires
        assoc(m, key) is None,
    ensures
        assoc(m.push((key, value)), key) == Some(value),
    decreases m.len(),
{
    let q = m.push((key, value));
    if m.len() > 0 {
        lemma_assoc_push(m.drop_first(), key, value);
        assert(q.drop_first() =~= m.drop_first().push((key, value)));
        assert(q[0] == m[0]);
    }
}

proof fn lemma_assoc_push_other<V>(m: Seq<(Seq<char>, V)>, e: (Seq<char>, V), key: Seq<char>)
    requires
        e.0 != key,
    ensures
        assoc(m.push(e), key) == assoc(m, key),
    decreases m.len(),
{
    let q = m.push(e);
    if m.len() > 0 {
        lemma_assoc_push_other(m.drop_first(), e, key);
        assert(q.drop_first() =~= m.drop_first().push(e));
        assert(q[0] == m[0]);
    } else {
        reveal_with_fuel(assoc, 2);
        assert(q.drop_first() =~= Seq::<(Seq<char>, V)>::empty());
    }
}

/// What a filter leaves passes it and was there before; what passes is left.
pub proof fn filter_members<T>(s: Seq<T>, p: spec_fn(T) -> bool)
    ensures
        forall|i: int| 0 <= i < s.filter(p).len() ==> p(#[trigger] s.filter(p)[i]),
        forall|x: T| #[trigger] s.filter(p).contains(x) <==> s.contains(x) && p(x),
    decreases s.len(),
{
    reveal(Seq::filter);
    if s.len() > 0 {
        filter_members(s.drop_last(), p);
        let f = s.filter(p);
        let g = s.drop_last().filter(p);
        assert forall|i: int| 0 <= i < f.len() implies p(#[trigger] f[i]) by {
            if i < g.len() {
                assert(f[i] == g[i]);
            }
        }
        assert forall|x: T| #[trigger] f.contains(x) <==> s.contains(x) && p(x) by {
            if f.contains(x) {
                let i = choose|i: int| 0 <= i < f.len() && f[i] == x;
                assert(p(f[i]));
                if i < g.len() {
                    assert(g[i] == x);
                    assert(g.contains(x));
                    let k = choose|k: int| 0 <= k < s.drop_last().len() && s.drop_last()[k] == x;
                    assert(s[k] == x);
                } else {
                    assert(s[s.len() - 1] == x);
                }
            }
            if s.contains(x) && p(x) {
                let k = choose|k: int| 0 <= k < s.len() && s[k] == x;
                if k < s.len() - 1 {
                    assert(s.drop_last()[k] == x);
                    assert(s.drop_last().contains(x));
                    assert(g.contains(x));
                    let i = choose|i: int| 0 <= i < g.len() && g[i] == x;
                    assert(f[i] == x);
                } else {
                    assert(f[f.len() - 1] == x);
                }
            }
        }
    }
}

/// A filter keeps members apart.
pub proof fn filter_keeps_distinct<T>(s: Seq<T>, p: spec_fn(T) -> bool)
    requires
        distinct(s),
    ensures
        distinct(s.filter(p)),
    decreases s.len(),
{
    reveal(Seq::filter);
    if s.len() > 0 {
        let d = s.drop_last();
        assert(distinct(d));
        filter_keeps_distinct(d, p);
        filter_members(d, p);
        let f = s.filter(p);
        let g = d.filter(p);
        assert forall|i: int, j: int| 0 <= i < j < f.len() implies f[i] != f[j] by {
            if j < g.len() {
                assert(f[i] == g[i] && f[j] == g[j]);
            } else {
                assert(f[i] == g[i]);
                assert(g.contains(g[i]));
                let k = choose|k: int| 0 <= k < d.len() && d[k] == g[i];
                assert(s[k] == g[i]);
                assert(f[j] == s[s.len() - 1]);
            }
        }
    }
}

/// A new member keeps members apart.
pub proof fn member_keeps_distinct<T>(s: Seq<T>, x: T)
    requires
        distinct(s),
    ensures
        distinct(with_member(s, x)),
        with_member(s, x).contains(x),
{
    if !s.contains(x) {
        let n = s.push(x);
        assert(n[s.len() as int] == x);
        assert forall|i: int, j: int| 0 <= i < j < n.len() implies n[i] != n[j] by {
            if j == s.len() {
                assert(s.contains(s[i]));
            }
        }
    }
}

/// Where the images of members are apart, so are those of the members that a filter
/// leaves.
pub proof fn filter_keeps_images_distinct<T, K>(
    s: Seq<T>,
    p: spec_fn(T) -> bool,
    f: spec_fn(T) -> K,
)
    requires
        distinct(s.map_values(f)),
    ensures
        distinct(s.filter(p).map_values(f)),
    decreases s.len(),
{
    reveal(Seq::filter);
    if s.len() > 0 {
        let d = s.drop_last();
        let a = s.map_values(f);
        let b = d.map_values(f);
        assert forall|i: int, j: int| 0 <= i < j < b.len() implies b[i] != b[j] by {
            assert(b[i] == a[i] && b[j] == a[j]);
        }
        filter_keeps_images_distinct(d, p, f);
        filter_members(d, p);
        let x = s.filter(p);
        let y = d.filter(p);
        let u = x.map_values(f);
        let v = y.map_values(f);
        assert forall|i: int, j: int| 0 <= i < j < u.len() implies u[i] != u[j] by {
            if j < y.len() {
                assert(u[i] == v[i] && u[j] == v[j]);
            } else {
                assert(x[i] == y[i]);
                assert(y.contains(y[i]));
                let k = choose|k: int| 0 <= k < d.len() && d[k] == y[i];
                assert(a[k] == f(y[i]));
                assert(a[s.len() - 1] == f(x[j]));
            }
        }
    }
}

/// The keys that a filter leaves are apart where they were before.
pub proof fn filter_keeps_keys_distinct<V>(
    m: Seq<(Seq<char>, V)>,
    p: spec_fn((Seq<char>, V)) -> bool,
)
    requires
        distinct(keys(m)),
    ensures
        distinct(keys(m.filter(p))),
{
    filter_keeps_images_distinct(m, p, |e: (Seq<char>, V)| e.0);
}

/// A map that is given a value keeps its keys apart.
pub proof fn entry_keeps_keys_distinct<V>(m: Seq<(Seq<char>, V)>, key: Seq<char>, value: V)
    requires
        distinct(keys(m)),
    ensures
        distinct(keys(with_entry(m, key, value))),
{
    let p = other_key::<V>(key);
    filter_keeps_keys_distinct(m, p);
    filter_members(m, p);
    let w = without_key(m, key);
    let n = with_entry(m, key, value);
    assert forall|i: int, j: int| 0 <= i < j < keys(n).len() implies keys(n)[i] != keys(n)[j] by {
        if j < w.len() {
            assert(keys(n)[i] == keys(w)[i] && keys(n)[j] == keys(w)[j]);
        } else {
            assert(p(w[i]));
            assert(keys(n)[i] == w[i].0);
        }
    }
}

/// Pruning keeps keys apart.
pub proof fn pruning_keeps_keys_distinct(m: Seq<(Seq<char>, i64)>, cap: nat)
    requires
        distinct(keys(m)),
    ensures
        distinct(keys(pruned(m, cap))),
    decreases m.len(),
{
    if !(m.len() <= cap || m.len() == 0) {
        lemma_oldest_in_range(m);
        let o = oldest(m);
        let r = m.remove(o);
        assert forall|i: int, j: int| 0 <= i < j < keys(r).len() implies keys(r)[i] != keys(r)[j] by {
            let i1 = if i < o {
                i
            } else {
                i + 1
            };
            let j1 = if j < o {
                j
            } else {
                j + 1
            };
            assert(keys(r)[i] == keys(m)[i1] && keys(r)[j] == keys(m)[j1]);
        }
        pruning_keeps_keys_distinct(r, cap);
    }
}

/// A key has a value where an entry bears it, and only there.
pub proof fn key_has_value<V>(m: Seq<(Seq<char>, V)>, key: Seq<char>)
    ensures
        assoc(m, key) is Some <==> exists|i: int| 0 <= i < m.len() && (#[trigger] m[i]).0 == key,
    decreases m.len(),
{
    if m.len() > 0 {
        let d = m.drop_first();
        key_has_value(d, key);
        if m[0].0 != key {
            if exists|i: int| 0 <= i < m.len() && (#[trigger] m[i]).0 == key {
                let i = choose|i: int| 0 <= i < m.len() && (#[trigger] m[i]).0 == key;
                assert(d[i - 1].0 == key);
            }
            if exists|i: int| 0 <= i < d.len() && (#[trigger] d[i]).0 == key {
                let i = choose|i: int| 0 <= i < d.len() && (#[trigger] d[i]).0 == key;
                assert(m[i + 1].0 == key);
            }
        }
    }
}

/// An entry that was put in last stays when the map is pruned, where none is stamped
/// after it.
pub proof fn pruning_keeps_the_last_entry(m: Seq<(Seq<char>, i64)>, cap: nat)
    requires
        cap > 0,
        m.len() > 0,
        forall|i: int| 0 <= i < m.len() ==> (#[trigger] m[i]).1 <= m.last().1,
    ensures
        pruned(m, cap).len() > 0,
        pruned(m, cap).last() == m.last(),
    decreases m.len(),
{
    if m.len() > cap {
        let d = m.drop_last();
        lemma_oldest_in_range(d);
        assert(m[oldest(d)].1 <= m.last().1);
        assert(oldest(m) == oldest(d));
        let rest = m.remove(oldest(m));
        assert(rest.last() == m.last());
        assert forall|i: int| 0 <= i < rest.len() implies (#[trigger] rest[i]).1 <= rest.last().1 by {
            let k = if i < oldest(m) {
                i
            } else {
                i + 1
            };
            assert(rest[i] == m[k]);
        }
        pruning_keeps_the_last_entry(rest, cap);
    }
}

/// No key is in a map more often than it has entries: a list of different keys of the
/// map is no longer than the map.
pub proof fn different_keys_fit<V>(m: Seq<(Seq<char>, V)>, some: Seq<Seq<char>>)
    requires
        some.no_duplicates(),
        forall|i: int| 0 <= i < some.len() ==> assoc(m, #[trigger] some[i]) is Some,
    ensures
        some.len() <= m.len(),
{
    some.unique_seq_to_set();
    keys(m).lemma_cardinality_of_set();
    assert forall|k: Seq<char>| some.to_set().contains(k) implies #[trigger] keys(
        m,
    ).to_set().contains(k) by {
        let i = choose|i: int| 0 <= i < some.len() && some[i] == k;
        assert(assoc(m, some[i]) is Some);
        key_has_value(m, k);
        let j = choose|j: int| 0 <= j < m.len() && (#[trigger] m[j]).0 == k;
        assert(keys(m)[j] == k);
    }
    vstd::set_lib::lemma_len_subset(some.to_set(), keys(m).to_set());
}

} // verus!
