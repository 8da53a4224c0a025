//! Lexicographic order on text, as Rust orders strings, and sorting triples
//! of texts by it.

use vstd::prelude::*;
use vstd::relations::{sorted_by, total_ordering};
use vstd::multiset::Multiset;

verus! {

broadcast use {vstd::multiset::group_multiset_axioms, vstd::seq_lib::group_to_multiset_ensures};

/// `a` comes no later than `b`: compared code point by code point, a proper
/// prefix first. Code point order is the order of the UTF-8 bytes, so this
/// is Rust's order on strings.
pub open spec fn text_le(a: Seq<char>, b: Seq<char>) -> bool
    decreases a.len(),
{
    if a.len() == 0 {
        true
    } else if b.len() == 0 {
        false
    } else if a[0] != b[0] {
        (a[0] as int) < (b[0] as int)
    } else {
        text_le(a.drop_first(), b.drop_first())
    }
}

pub open spec fn text_lt(a: Seq<char>, b: Seq<char>) -> bool {
    text_le(a, b) && a != b
}

/// Three texts, compared as Rust compares a tuple of three strings.
pub type Triple = (Seq<char>, Seq<char>, Seq<char>);

pub open spec fn triple_le(x: Triple, y: Triple) -> bool {
    ||| text_lt(x.0, y.0)
    ||| x.0 == y.0 && text_lt(x.1, y.1)
    ||| x.0 == y.0 && x.1 == y.1 && text_le(x.2, y.2)
}

pub open spec fn triple_order() -> spec_fn(Triple, Triple) -> bool {
    |x: Triple, y: Triple| triple_le(x, y)
}

proof fn lemma_text_le_refl(a: Seq<char>)
    ensures
        text_le(a, a),
    decreases a.len(),
{
    if a.len() > 0 {
        lemma_text_le_refl(a.drop_first());
    }
}

proof fn lemma_same_head_tail(a: Seq<char>, b: Seq<char>)
    requires
        a.len() > 0,
        b.len() > 0,
        a[0] == b[0],
        a.drop_first() == b.drop_first(),
    ensures
        a == b,
{
    assert(a.len() == a.drop_first().len() + 1);
    assert(b.len() == b.drop_first().len() + 1);
    assert forall|i: int| 0 <= i < a.len() implies a[i] == b[i] by {
        if i > 0 {
            assert(a[i] == a.drop_first()[i - 1]);
            assert(b[i] == b.drop_first()[i - 1]);
        }
    }
    assert(a =~= b);
}

proof fn lemma_text_le_antisym(a: Seq<char>, b: Seq<char>)
    requires
        text_le(a, b),
        text_le(b, a),
    ensures
        a == b,
    decreases a.len(),
{
    if a.len() == 0 {
        assert(b.len() == 0);
        assert(a =~= b);
    } else {
        lemma_text_le_antisym(a.drop_first(), b.drop_first());
        lemma_same_head_tail(a, b);
    }
}

proof fn lemma_text_le_trans(a: Seq<char>, b: Seq<char>, c: Seq<char>)
    requires
        text_le(a, b),
        text_le(b, c),
    ensures
        text_le(a, c),
    decreases a.len(),
{
    if a.len() > 0 && b.len() > 0 && c.len() > 0 && a[0] == b[0] && b[0] == c[0] {
        lemma_text_le_trans(a.drop_first(), b.drop_first(), c.drop_first());
    }
}

proof fn lemma_text_le_total(a: Seq<char>, b: Seq<char>)
    ensures
        text_le(a, b) || text_le(b, a),
    decreases a.len(),
{
    if a.len() > 0 && b.len() > 0 && a[0] == b[0] {
        lemma_text_le_total(a.drop_first(), b.drop_first());
    }
}

/// The order on triples is a total order, so sorting by it has one result.
pub proof fn lemma_triple_order_total()
    ensures
        total_ordering(triple_order()),
{
    let r = triple_order();
    assert forall|x: Triple| #[trigger] r(x, x) by {
        lemma_text_le_refl(x.2);
    }
    assert forall|x: Triple, y: Triple| #[trigger] r(x, y) && #[trigger] r(y, x) implies x == y by {
        if text_lt(x.0, y.0) || text_lt(y.0, x.0) {
            if text_lt(x.0, y.0) && text_lt(y.0, x.0) {
                lemma_text_le_antisym(x.0, y.0);
            } else if text_lt(x.0, y.0) {
                assert(x.0 == y.0);
            } else {
                assert(x.0 == y.0);
            }
        }
        assert(x.0 == y.0);
        if text_lt(x.1, y.1) && text_lt(y.1, x.1) {
            lemma_text_le_antisym(x.1, y.1);
        }
        assert(x.1 == y.1);
        lemma_text_le_antisym(x.2, y.2);
    }
    assert forall|x: Triple, y: Triple, z: Triple| #[trigger] r(x, y) && #[trigger] r(y, z) implies r(x, z) by {
        if text_le(x.0, y.0) && text_le(y.0, z.0) {
            lemma_text_le_trans(x.0, y.0, z.0);
            if x.0 == z.0 {
                lemma_text_le_antisym(x.0, y.0);
            }
        }
        if x.0 == y.0 && y.0 == z.0 {
            if text_le(x.1, y.1) && text_le(y.1, z.1) {
                lemma_text_le_trans(x.1, y.1, z.1);
                if x.1 == z.1 {
                    lemma_text_le_antisym(x.1, y.1);
                }
            }
            if x.1 == y.1 && y.1 == z.1 {
                lemma_text_le_trans(x.2, y.2, z.2);
            }
        }
    }
    assert forall|x: Triple, y: Triple| #[trigger] r(x, y) || #[trigger] r(y, x) by {
        lemma_text_le_total(x.0, y.0);
        lemma_text_le_total(x.1, y.1);
        lemma_text_le_total(x.2, y.2);
    }
}

/// Whether `a` comes no later than `b`.
pub fn text_le_of(a: &Vec<char>, b: &Vec<char>) -> (r: bool)
    ensures
        r == text_le(a@, b@),
{
    let mut i: usize = 0;
    assert(a@.skip(0) =~= a@);
    assert(b@.skip(0) =~= b@);
    while i < a.len() && i < b.len() && a[i] == b[i]
        invariant
            i <= a.len(),
            i <= b.len(),
            text_le(a@, b@) == text_le(a@.skip(i as int), b@.skip(i as int)),
        decreases a.len() - i,
    {
        assert(a@.skip(i as int).drop_first() =~= a@.skip(i + 1));
        assert(b@.skip(i as int).drop_first() =~= b@.skip(i + 1));
        i = i + 1;
    }
    if i == a.len() {
        true
    } else if i == b.len() {
        false
    } else {
        a[i] < b[i]
    }
}

fn text_eq(a: &Vec<char>, b: &Vec<char>) -> (r: bool)
    ensures
        r == (a@ == b@),
{
    crate::text::same(a, b)
}

/// Three texts held as character vectors.
pub type TripleOf = (Vec<char>, Vec<char>, Vec<char>);

pub open spec fn triple_view(t: TripleOf) -> Triple {
    (t.0@, t.1@, t.2@)
}

pub open spec fn triple_views(s: Seq<TripleOf>) -> Seq<Triple> {
    s.map_values(|t: TripleOf| triple_view(t))
}

pub fn triple_le_of(x: &TripleOf, y: &TripleOf) -> (r: bool)
    ensures
        r == triple_le(triple_view(*x), triple_view(*y)),
{
    let e0 = text_eq(&x.0, &y.0);
    if !e0 {
        return text_le_of(&x.0, &y.0);
    }
    let e1 = text_eq(&x.1, &y.1);
    if !e1 {
        return text_le_of(&x.1, &y.1);
    }
    text_le_of(&x.2, &y.2)
}

/// Where `x` goes in the sorted `out`: after everything no later than it.
fn insertion_point(out: &Vec<TripleOf>, x: &TripleOf) -> (p: usize)
    ensures
        p <= out.len(),
        forall|i: int| 0 <= i < p ==> triple_le(#[trigger] triple_view(out@[i]), triple_view(*x)),
        p < out.len() ==> !triple_le(triple_view(out@[p as int]), triple_view(*x)),
{
    let mut p: usize = 0;
    while p < out.len()
        invariant
            p <= out.len(),
            forall|i: int| 0 <= i < p ==> triple_le(#[trigger] triple_view(out@[i]), triple_view(*x)),
        decreases out.len() - p,
    {
        if !triple_le_of(&out[p], x) {
            return p;
        }
        p = p + 1;
    }
    p
}

proof fn lemma_insert_sorted(s: Seq<Triple>, p: int, x: Triple)
    requires
        sorted_by(s, triple_order()),
        0 <= p <= s.len(),
        forall|i: int| 0 <= i < p ==> triple_le(#[trigger] s[i], x),
        p < s.len() ==> !triple_le(s[p], x),
    ensures
        sorted_by(s.insert(p, x), triple_order()),
{
    lemma_triple_order_total();
    let r = triple_order();
    let t = s.insert(p, x);
    if p < s.len() {
        assert(r(s[p], x) || r(x, s[p]));
    }
    assert forall|i: int, j: int| 0 <= i < j < t.len() implies #[trigger] r(t[i], t[j]) by {
        if j < p {
            assert(r(s[i], s[j]));
        } else if j == p {
            assert(triple_le(s[i], x));
        } else if i < p {
            assert(r(s[i], s[j - 1]));
        } else if i == p {
            if j - 1 > p {
                assert(r(s[p], s[j - 1]));
                assert(r(x, s[p]) && r(s[p], s[j - 1]));
            }
        } else {
            assert(r(s[i - 1], s[j - 1]));
        }
    }
}

/// The triples sorted as Rust sorts them.
pub fn sort_triples(v: Vec<TripleOf>) -> (r: Vec<TripleOf>)
    ensures
        triple_views(r@) == triple_views(v@).sort_by(triple_order()),
{
    let ghost all = triple_views(v@);
    let mut rest = v;
    let mut out: Vec<TripleOf> = Vec::new();
    proof {
        assert(triple_views(out@) =~= Seq::<Triple>::empty());
    }
    while rest.len() > 0
        invariant
            sorted_by(triple_views(out@), triple_order()),
            triple_views(out@).to_multiset().add(triple_views(rest@).to_multiset()) == all.to_multiset(),
        decreases rest.len(),
    {
        let ghost before_rest = rest@;
        let ghost before_out = out@;
        let x = match rest.pop() {
            Some(x) => x,
            None => { return out; },
        };
        let p = insertion_point(&out, &x);
        proof {
            assert(triple_views(before_rest) =~= triple_views(rest@).push(triple_view(x)));
            vstd::seq_lib::to_multiset_build(triple_views(rest@), triple_view(x));
            lemma_insert_sorted(triple_views(out@), p as int, triple_view(x));
        }
        out.insert(p, x);
        proof {
            assert(triple_views(out@) =~= triple_views(before_out).insert(p as int, triple_view(x)));
            vstd::seq_lib::to_multiset_insert(triple_views(before_out), p as int, triple_view(x));
            assert(triple_views(out@).to_multiset().add(triple_views(rest@).to_multiset())
                =~= triple_views(before_out).to_multiset().add(triple_views(before_rest).to_multiset()));
        }
    }
    proof {
        assert(triple_views(rest@) =~= Seq::<Triple>::empty());
        assert(triple_views(rest@).to_multiset() =~= Multiset::empty());
        assert(triple_views(out@).to_multiset() =~= all.to_multiset());
        lemma_triple_order_total();
        all.lemma_sort_by_ensures(triple_order());
        vstd::seq_lib::lemma_sorted_unique(triple_views(out@), all.sort_by(triple_order()), triple_order());
    }
    out
}

} // verus!
