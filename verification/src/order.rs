//! The order of texts, and stable sorting.
use vstd::prelude::*;
use vstd::relations::*;

use crate::text::chars_of;

verus! {

/// Whether `a` comes before `b`, or equals it, character by character.
pub open spec fn text_leq(a: Seq<char>, b: Seq<char>) -> bool
    decreases a.len(),
{
    if a.len() == 0 {
        true
    } else if b.len() == 0 {
        false
    } else if a[0] == b[0] {
        text_leq(a.drop_first(), b.drop_first())
    } else {
        a[0] < b[0]
    }
}

/// The order of texts as a relation.
pub open spec fn by_text() -> spec_fn(Seq<char>, Seq<char>) -> bool {
    |a: Seq<char>, b: Seq<char>| text_leq(a, b)
}

/// `s` with `x` put behind the last element that does not come after it.
pub open spec fn inserted<T>(s: Seq<T>, x: T, leq: spec_fn(T, T) -> bool) -> Seq<T>
    decreases s.len(),
{
    if s.len() == 0 || leq(s.last(), x) {
        s.push(x)
    } else {
        inserted(s.drop_last(), x, leq).push(s.last())
    }
}

/// `s` in order; elements that count as equal keep their order.
pub open spec fn sorted<T>(s: Seq<T>, leq: spec_fn(T, T) -> bool) -> Seq<T>
    decreases s.len(),
{
    if s.len() == 0 {
        s
    } else {
        inserted(sorted(s.drop_last(), leq), s.last(), leq)
    }
}

/// Inserting into a list leaves its length one more and adds just the element.
pub proof fn lemma_inserted<T>(s: Seq<T>, x: T, leq: spec_fn(T, T) -> bool)
    ensures
        inserted(s, x, leq).len() == s.len() + 1,
        inserted(s, x, leq).to_multiset() == s.to_multiset().insert(x),
    decreases s.len(),
{
    broadcast use vstd::seq_lib::group_to_multiset_ensures;

    if s.len() == 0 || leq(s.last(), x) {
    } else {
        let d = s.drop_last();
        lemma_inserted(d, x, leq);
        assert(d.push(s.last()) =~= s);
        assert(inserted(s, x, leq).to_multiset() =~= s.to_multiset().insert(x));
    }
}

/// What `inserted` holds comes from the list or is the new element.
proof fn lemma_inserted_member<T>(s: Seq<T>, x: T, leq: spec_fn(T, T) -> bool, i: int)
    requires
        0 <= i < inserted(s, x, leq).len(),
    ensures
        inserted(s, x, leq)[i] == x || s.contains(inserted(s, x, leq)[i]),
    decreases s.len(),
{
    lemma_inserted(s, x, leq);
    if s.len() == 0 || leq(s.last(), x) {
        if i < s.len() {
            assert(s[i] == inserted(s, x, leq)[i]);
        }
    } else {
        let d = s.drop_last();
        lemma_inserted(d, x, leq);
        if i < d.len() + 1 {
            lemma_inserted_member(d, x, leq, i);
            if d.contains(inserted(d, x, leq)[i]) {
                let k = choose|k: int| 0 <= k < d.len() && d[k] == inserted(d, x, leq)[i];
                assert(s[k] == d[k]);
            }
        } else {
            assert(s[s.len() - 1] == inserted(s, x, leq)[i]);
        }
    }
}

/// Whether a relation can order a list: every two elements compare, and what compares
/// step by step compares from end to end. Different elements may count as equal.
pub open spec fn orders<T>(leq: spec_fn(T, T) -> bool) -> bool {
    &&& reflexive(leq)
    &&& transitive(leq)
    &&& strongly_connected(leq)
}

/// Inserting into an ordered list keeps it ordered.
pub proof fn insertion_keeps_order<T>(s: Seq<T>, x: T, leq: spec_fn(T, T) -> bool)
    requires
        orders(leq),
        sorted_by(s, leq),
    ensures
        sorted_by(inserted(s, x, leq), leq),
    decreases s.len(),
{
    let r = inserted(s, x, leq);
    lemma_inserted(s, x, leq);
    if s.len() == 0 || leq(s.last(), x) {
        assert forall|i: int, j: int| 0 <= i < j < r.len() implies #[trigger] leq(r[i], r[j]) by {
            if j == s.len() {
                if i < s.len() - 1 {
                    assert(leq(s[i], s[s.len() - 1]));
                }
            } else {
                assert(leq(s[i], s[j]));
            }
        }
    } else {
        let d = s.drop_last();
        assert(sorted_by(d, leq)) by {
            assert forall|i: int, j: int| 0 <= i < j < d.len() implies #[trigger] leq(d[i], d[j]) by {
                assert(leq(s[i], s[j]));
            }
        }
        insertion_keeps_order(d, x, leq);
        lemma_inserted(d, x, leq);
        let q = inserted(d, x, leq);
        assert(leq(x, s.last()));
        assert forall|i: int, j: int| 0 <= i < j < r.len() implies #[trigger] leq(r[i], r[j]) by {
            if j == r.len() - 1 {
                lemma_inserted_member(d, x, leq, i);
                if q[i] != x {
                    let k = choose|k: int| 0 <= k < d.len() && d[k] == q[i];
                    assert(leq(s[k], s[s.len() - 1]));
                }
            } else {
                assert(leq(q[i], q[j]));
            }
        }
    }
}

/// Sorting rearranges and nothing else.
pub proof fn sorting_rearranges<T>(s: Seq<T>, leq: spec_fn(T, T) -> bool)
    ensures
        sorted(s, leq).len() == s.len(),
        sorted(s, leq).to_multiset() == s.to_multiset(),
    decreases s.len(),
{
    broadcast use vstd::seq_lib::group_to_multiset_ensures;

    if s.len() > 0 {
        let d = s.drop_last();
        sorting_rearranges(d, leq);
        lemma_inserted(sorted(d, leq), s.last(), leq);
        assert(d.push(s.last()) =~= s);
    }
}

/// Sorting puts the elements in order.
pub proof fn sorting_orders<T>(s: Seq<T>, leq: spec_fn(T, T) -> bool)
    requires
        orders(leq),
    ensures
        sorted_by(sorted(s, leq), leq),
    decreases s.len(),
{
    if s.len() > 0 {
        sorting_orders(s.drop_last(), leq);
        insertion_keeps_order(sorted(s.drop_last(), leq), s.last(), leq);
    }
}

/// Two lists that hold the same elements sort to the same list.
pub proof fn sorting_forgets_order<T>(a: Seq<T>, b: Seq<T>, leq: spec_fn(T, T) -> bool)
    requires
        total_ordering(leq),
        a.to_multiset() == b.to_multiset(),
    ensures
        sorted(a, leq) == sorted(b, leq),
{
    sorting_rearranges(a, leq);
    sorting_rearranges(b, leq);
    sorting_orders(a, leq);
    sorting_orders(b, leq);
    vstd::seq_lib::lemma_sorted_unique(sorted(a, leq), sorted(b, leq), leq);
}

proof fn lemma_leq_reflexive(a: Seq<char>)
    ensures
        text_leq(a, a),
    decreases a.len(),
{
    if a.len() > 0 {
        lemma_leq_reflexive(a.drop_first());
    }
}

proof fn lemma_leq_connected(a: Seq<char>, b: Seq<char>)
    ensures
        text_leq(a, b) || text_leq(b, a),
    decreases a.len(),
{
    if a.len() > 0 && b.len() > 0 && a[0] == b[0] {
        lemma_leq_connected(a.drop_first(), b.drop_first());
    }
}

proof fn lemma_leq_antisymmetric(a: Seq<char>, b: Seq<char>)
    requires
        text_leq(a, b),
        text_leq(b, a),
    ensures
        a == b,
    decreases a.len(),
{
    if a.len() > 0 && b.len() > 0 {
        lemma_leq_antisymmetric(a.drop_first(), b.drop_first());
        assert(a =~= seq![a[0]] + a.drop_first());
        assert(b =~= seq![b[0]] + b.drop_first());
    } else {
        assert(a =~= b);
    }
}

proof fn lemma_leq_transitive(a: Seq<char>, b: Seq<char>, c: Seq<char>)
    requires
        text_leq(a, b),
        text_leq(b, c),
    ensures
        text_leq(a, c),
    decreases a.len(),
{
    if a.len() > 0 && b.len() > 0 && c.len() > 0 && a[0] == b[0] && b[0] == c[0] {
        lemma_leq_transitive(a.drop_first(), b.drop_first(), c.drop_first());
    }
}

/// Texts are totally ordered.
pub proof fn texts_are_ordered()
    ensures
        total_ordering(by_text()),
{
    let r = by_text();
    assert forall|a: Seq<char>| #[trigger] r(a, a) by {
        lemma_leq_reflexive(a);
    }
    assert forall|a: Seq<char>, b: Seq<char>| #[trigger] r(a, b) && #[trigger] r(b, a) implies a
        == b by {
        lemma_leq_antisymmetric(a, b);
    }
    assert forall|a: Seq<char>, b: Seq<char>, c: Seq<char>| #[trigger]
        r(a, b) && #[trigger] r(b, c) implies r(a, c) by {
        lemma_leq_transitive(a, b, c);
    }
    assert forall|a: Seq<char>, b: Seq<char>| #[trigger] r(a, b) || #[trigger] r(b, a) by {
        lemma_leq_connected(a, b);
    }
}

/// Tests the order of two texts.
pub fn str_leq(a: &str, b: &str) -> (r: bool)
    ensures
        r == text_leq(a@, b@),
{
    let av = chars_of(a);
    let bv = chars_of(b);
    let mut i: usize = 0;
    proof {
        assert(av@.skip(0) =~= av@);
        assert(bv@.skip(0) =~= bv@);
    }
    while i < av.len() && i < bv.len()
        invariant
            i <= av.len(),
            i <= bv.len(),
            av@ == a@,
            bv@ == b@,
            text_leq(a@, b@) == text_leq(av@.skip(i as int), bv@.skip(i as int)),
        decreases av.len() - i,
    {
        proof {
            assert(av@.skip(i as int)[0] == av@[i as int]);
            assert(bv@.skip(i as int)[0] == bv@[i as int]);
            assert(av@.skip(i as int).drop_first() =~= av@.skip(i as int + 1));
            assert(bv@.skip(i as int).drop_first() =~= bv@.skip(i as int + 1));
        }
        if av[i] != bv[i] {
            return av[i] < bv[i];
        }
        i += 1;
    }
    i == av.len()
}

/// The elements from `from` on come after `x`, so `x` belongs before them.
pub proof fn lemma_inserted_at<T>(s: Seq<T>, x: T, leq: spec_fn(T, T) -> bool, at: int)
    requires
        0 <= at <= s.len(),
        at == 0 || leq(s[at - 1], x),
        forall|k: int| at <= k < s.len() ==> !leq(#[trigger] s[k], x),
    ensures
        inserted(s, x, leq) == s.insert(at, x),
    decreases s.len(),
{
    if at == s.len() {
        assert(s.insert(at, x) =~= s.push(x));
    } else {
        let d = s.drop_last();
        assert(!leq(s[s.len() - 1], x));
        lemma_inserted_at(d, x, leq, at);
        assert(s.insert(at, x) =~= d.insert(at, x).push(s.last()));
    }
}

/// Sorts texts.
pub fn sort_texts(v: &Vec<String>) -> (r: Vec<String>)
    ensures
        r.deep_view() == sorted(v.deep_view(), by_text()),
{
    let ghost vv = v.deep_view();
    let mut out: Vec<String> = Vec::new();
    let mut i: usize = 0;
    proof {
        assert(vv.take(0) =~= Seq::<Seq<char>>::empty());
        assert(out.deep_view() =~= Seq::<Seq<char>>::empty());
    }
    while i < v.len()
        invariant
            i <= v.len(),
            vv == v.deep_view(),
            out.deep_view() == sorted(vv.take(i as int), by_text()),
        decreases v.len() - i,
    {
        let ghost ov = out.deep_view();
        let mut at: usize = out.len();
        while at > 0 && !str_leq(out[at - 1].as_str(), v[i].as_str())
            invariant
                at <= out.len(),
                i < v.len(),
                ov == out.deep_view(),
                forall|k: int| at <= k < ov.len() ==> !by_text()(#[trigger] ov[k], v@[i as int]@),
            decreases at,
        {
            at -= 1;
        }
        proof {
            lemma_inserted_at(ov, vv[i as int], by_text(), at as int);
            assert(vv.take(i as int + 1).drop_last() =~= vv.take(i as int));
            assert(vv.take(i as int + 1).last() == vv[i as int]);
        }
        out.insert(at, v[i].clone());
        assert(out.deep_view() =~= ov.insert(at as int, vv[i as int]));
        i += 1;
    }
    assert(vv.take(vv.len() as int) =~= vv);
    out
}

} // verus!
