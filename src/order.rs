//! Lexicographic order of text by character code, and sorting of names.
//! This order is the one `str` has, since UTF-8 keeps code-point order.

use vstd::prelude::*;
use vstd::multiset::Multiset;

verus! {

/// `a` comes strictly before `b`.
pub open spec fn text_lt(a: Seq<char>, b: Seq<char>) -> bool
    decreases a.len(),
{
    if a.len() == 0 {
        b.len() > 0
    } else if b.len() == 0 {
        false
    } else if a[0] != b[0] {
        (a[0] as u32) < (b[0] as u32)
    } else {
        text_lt(a.drop_first(), b.drop_first())
    }
}

/// Each name comes no later than the ones after it.
pub open spec fn is_sorted(s: Seq<Seq<char>>) -> bool {
    forall|i: int, j: int| 0 <= i < j < s.len() ==> !text_lt(#[trigger] s[j], #[trigger] s[i])
}

pub proof fn lemma_text_lt_transitive(a: Seq<char>, b: Seq<char>, c: Seq<char>)
    requires
        text_lt(a, b),
        text_lt(b, c),
    ensures
        text_lt(a, c),
    decreases a.len(),
{
    if a.len() > 0 && b.len() > 0 && c.len() > 0 && a[0] == b[0] && b[0] == c[0] {
        lemma_text_lt_transitive(a.drop_first(), b.drop_first(), c.drop_first());
    }
}

pub proof fn lemma_text_lt_irreflexive(a: Seq<char>)
    ensures
        !text_lt(a, a),
    decreases a.len(),
{
    if a.len() > 0 {
        lemma_text_lt_irreflexive(a.drop_first());
    }
}

proof fn lemma_text_lt_skip(a: Seq<char>, b: Seq<char>, i: int)
    requires
        0 <= i < a.len(),
        i < b.len(),
        a[i] == b[i],
    ensures
        text_lt(a.skip(i), b.skip(i)) == text_lt(a.skip(i + 1), b.skip(i + 1)),
{
    assert(a.skip(i).drop_first() =~= a.skip(i + 1));
    assert(b.skip(i).drop_first() =~= b.skip(i + 1));
}

/// Whether `a` comes strictly before `b`.
pub fn text_less(a: &String, b: &String) -> (r: bool)
    ensures
        r == text_lt(a@, b@),
{
    let sa = a.as_str();
    let sb = b.as_str();
    let na = sa.unicode_len();
    let nb = sb.unicode_len();
    let mut i: usize = 0;
    assert(a@.skip(0) =~= a@);
    assert(b@.skip(0) =~= b@);
    while i < na && i < nb
        invariant
            i <= na,
            i <= nb,
            na == a@.len(),
            nb == b@.len(),
            sa@ == a@,
            sb@ == b@,
            text_lt(a@, b@) == text_lt(a@.skip(i as int), b@.skip(i as int)),
        decreases na - i,
    {
        let ca = sa.get_char(i);
        let cb = sb.get_char(i);
        if ca != cb {
            assert(a@.skip(i as int)[0] == ca);
            assert(b@.skip(i as int)[0] == cb);
            return (ca as u32) < (cb as u32);
        }
        proof {
            lemma_text_lt_skip(a@, b@, i as int);
        }
        i = i + 1;
    }
    assert(i == na ==> a@.skip(i as int).len() == 0);
    assert(i == nb ==> b@.skip(i as int).len() == 0);
    i == na && i < nb
}

/// The names of `names`, sorted.
pub fn sorted_names(names: &Vec<String>) -> (r: Vec<String>)
    ensures
        is_sorted(r@.map_values(|s: String| s@)),
        r@.map_values(|s: String| s@).to_multiset() =~= names@.map_values(
            |s: String| s@,
        ).to_multiset(),
{
    let mut out: Vec<String> = Vec::new();
    let mut i: usize = 0;
    assert(out@.map_values(|s: String| s@) =~= names@.subrange(0, 0).map_values(|s: String| s@));
    while i < names.len()
        invariant
            i <= names@.len(),
            is_sorted(out@.map_values(|s: String| s@)),
            out@.map_values(|s: String| s@).to_multiset() =~= names@.subrange(
                0,
                i as int,
            ).map_values(|s: String| s@).to_multiset(),
        decreases names@.len() - i,
    {
        let x = names[i].clone();
        let mut pos: usize = 0;
        while pos < out.len() && !text_less(&x, &out[pos])
            invariant
                pos <= out@.len(),
                forall|k: int| 0 <= k < pos ==> !text_lt(x@, #[trigger] out@[k]@),
            decreases out@.len() - pos,
        {
            pos = pos + 1;
        }
        let ghost before = out@;
        let ghost xv = x@;
        out.insert(pos, x);
        proof {
            let m = before.map_values(|s: String| s@);
            let m2 = out@.map_values(|s: String| s@);
            assert(m2 =~= m.insert(pos as int, xv));
            assert(pos < m.len() ==> text_lt(xv, m[pos as int]));
            assert forall|a: int, b: int| 0 <= a < b < m2.len() implies !text_lt(
                #[trigger] m2[b],
                #[trigger] m2[a],
            ) by {
                if a < pos && b == pos {
                    assert(m2[a] == before[a]@);
                } else if a == pos && b > pos {
                    assert(m[b - 1] == m2[b]);
                    assert(m2[a] == xv);
                    if text_lt(m2[b], m2[a]) {
                        lemma_text_lt_transitive(m2[b], xv, m[pos as int]);
                        if b - 1 == pos {
                            lemma_text_lt_irreflexive(m[pos as int]);
                        }
                    }
                } else if a < pos && b > pos {
                    assert(m[a] == m2[a]);
                    assert(m[b - 1] == m2[b]);
                } else if b < pos {
                    assert(m[a] == m2[a]);
                    assert(m[b] == m2[b]);
                } else {
                    assert(m[a - 1] == m2[a]);
                    assert(m[b - 1] == m2[b]);
                }
            }
            vstd::seq_lib::to_multiset_insert(m, pos as int, xv);
            let src = names@.subrange(0, i + 1).map_values(|s: String| s@);
            let prev = names@.subrange(0, i as int).map_values(|s: String| s@);
            assert(src =~= prev.push(xv));
            vstd::seq_lib::to_multiset_build(prev, xv);
        }
        i = i + 1;
    }
    assert(names@.subrange(0, names@.len() as int) =~= names@);
    out
}

} // verus!
