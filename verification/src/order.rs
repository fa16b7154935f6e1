//! Texts in alphabetical order.
use vstd::prelude::*;

use crate::text;
use crate::text::chars_of;

verus! {

/// Whether a text comes no later than another: compared character by character,
/// with a text before its continuations.
pub open spec fn text_le(a: Seq<char>, b: Seq<char>) -> bool
    decreases a.len(),
{
    if a.len() == 0 {
        true
    } else if b.len() == 0 {
        false
    } else if a[0] != b[0] {
        a[0] < b[0]
    } else {
        text_le(a.drop_first(), b.drop_first())
    }
}

/// Whether the texts stand in alphabetical order.
pub open spec fn sorted(s: Seq<Seq<char>>) -> bool {
    forall|i: int, j: int| 0 <= i <= j < s.len() ==> text_le(#[trigger] s[i], #[trigger] s[j])
}

/// Of two texts, one comes no later than the other.
pub proof fn text_le_total(a: Seq<char>, b: Seq<char>)
    ensures
        text_le(a, b) || text_le(b, a),
    decreases a.len(),
{
    if a.len() > 0 && b.len() > 0 && a[0] == b[0] {
        text_le_total(a.drop_first(), b.drop_first());
    }
}

/// The alphabetical order is transitive.
pub proof fn text_le_transitive(a: Seq<char>, b: Seq<char>, c: Seq<char>)
    requires
        text_le(a, b),
        text_le(b, c),
    ensures
        text_le(a, c),
    decreases a.len(),
{
    if a.len() > 0 && a[0] == b[0] && b[0] == c[0] {
        text_le_transitive(a.drop_first(), b.drop_first(), c.drop_first());
    }
}

/// Texts that come no later than each other are equal.
pub proof fn text_le_antisymmetric(a: Seq<char>, b: Seq<char>)
    requires
        text_le(a, b),
        text_le(b, a),
    ensures
        a == b,
    decreases a.len(),
{
    if a.len() > 0 {
        text_le_antisymmetric(a.drop_first(), b.drop_first());
        assert(a =~= seq![a[0]] + a.drop_first());
        assert(b =~= seq![b[0]] + b.drop_first());
    } else {
        assert(b.len() == 0);
        assert(a =~= b);
    }
}

/// Whether a text comes no later than another.
pub fn at_most(a: &str, b: &str) -> (r: bool)
    ensures
        r == text_le(a@, b@),
{
    let x = chars_of(a);
    let y = chars_of(b);
    let mut i: usize = 0;
    assert(x@.skip(0) =~= a@);
    assert(y@.skip(0) =~= b@);
    while i < x.len()
        invariant
            x@ == a@,
            y@ == b@,
            i <= x.len(),
            i <= y.len(),
            text_le(a@, b@) == text_le(x@.skip(i as int), y@.skip(i as int)),
        decreases x.len() - i,
    {
        if i == y.len() {
            return false;
        }
        if x[i] != y[i] {
            return x[i] < y[i];
        }
        assert(x@.skip(i as int).drop_first() =~= x@.skip(i + 1));
        assert(y@.skip(i as int).drop_first() =~= y@.skip(i + 1));
        i = i + 1;
    }
    true
}

/// Puts texts in alphabetical order.
pub fn sort_texts(v: Vec<String>) -> (r: Vec<String>)
    ensures
        sorted(text::texts(r@)),
        text::texts(r@).to_multiset() == text::texts(v@).to_multiset(),
{
    let ghost all = v@;
    let mut out: Vec<String> = Vec::new();
    assert(text::texts(out@) =~= text::texts(all.take(0)));
    for s in it: v
        invariant
            it.seq() == all,
            sorted(text::texts(out@)),
            text::texts(out@).to_multiset() == text::texts(all.take(it.index() as int)).to_multiset(),
    {
        let ghost n = it.index() as int;
        let mut k: usize = 0;
        while k < out.len() && at_most(out[k].as_str(), s.as_str())
            invariant
                k <= out.len(),
                forall|i: int| 0 <= i < k ==> text_le(#[trigger] out[i]@, s@),
            ensures
                k < out.len() ==> !text_le(out[k as int]@, s@),
            decreases out.len() - k,
        {
            k = k + 1;
        }
        let ghost before = text::texts(out@);
        let ghost added = s@;
        proof {
            assert forall|i: int| 0 <= i < before.len() implies before[i] == out[i]@ by {}
            assert forall|i: int| k <= i < before.len() implies text_le(added, #[trigger] before[i]) by {
                text_le_total(added, before[k as int]);
                text_le_transitive(added, before[k as int], before[i]);
            }
        }
        out.insert(k, s);
        proof {
            let after = text::texts(out@);
            assert(after =~= before.insert(k as int, added));
            assert forall|i: int, j: int| 0 <= i <= j < after.len() implies text_le(
                #[trigger] after[i],
                #[trigger] after[j],
            ) by {
                let x = if i < k {
                    i
                } else {
                    i - 1
                };
                let y = if j < k {
                    j
                } else {
                    j - 1
                };
                if i != k && j != k {
                    assert(text_le(before[x], before[y]));
                } else if i == k && j == k {
                    text_le_total(added, added);
                } else if i == k {
                    assert(text_le(added, before[y]));
                } else {
                    assert(text_le(before[x], added));
                }
            }
            after.to_multiset_ensures();
            assert(after.remove(k as int) =~= before);
            assert(after[k as int] == added);
            assert(after.to_multiset() =~= before.to_multiset().insert(added));
            let taken = text::texts(all.take(n));
            assert(text::texts(all.take(n + 1)) =~= taken.push(added));
            taken.to_multiset_ensures();
        }
    }
    assert(all.take(all.len() as int) =~= all);
    out
}

} // verus!
