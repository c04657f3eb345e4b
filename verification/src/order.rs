//! The canonical ordering of key strings: descriptors must be byte-identical
//! whatever order the configuration lists the keys in, so the engine sorts
//! each key set by its string encoding before composing.

use vstd::prelude::*;
use vstd::multiset::Multiset;
use vstd::relations::*;
use vstd::seq_lib::*;
use vstd::string::*;

verus! {

/// The character views of a sequence of key strings.
pub open spec fn key_views(keys: Seq<String>) -> Seq<Seq<char>> {
    keys.map_values(|k: String| k@)
}

/// Lexicographic order on character sequences: the canonical ordering of the
/// key encodings.
pub open spec fn lex_le(a: Seq<char>, b: Seq<char>) -> bool
    decreases a.len(),
{
    if a.len() == 0 {
        true
    } else if b.len() == 0 {
        false
    } else if a[0] == b[0] {
        lex_le(a.drop_first(), b.drop_first())
    } else {
        a[0] < b[0]
    }
}

/// The lexicographic order as a relation value.
pub open spec fn lex_leq() -> spec_fn(Seq<char>, Seq<char>) -> bool {
    |x: Seq<char>, y: Seq<char>| lex_le(x, y)
}

pub proof fn lemma_lex_le_refl(a: Seq<char>)
    ensures
        lex_le(a, a),
    decreases a.len(),
{
    if a.len() > 0 {
        lemma_lex_le_refl(a.drop_first());
    }
}

pub proof fn lemma_lex_le_total(a: Seq<char>, b: Seq<char>)
    ensures
        lex_le(a, b) || lex_le(b, a),
    decreases a.len(),
{
    if a.len() > 0 && b.len() > 0 && a[0] == b[0] {
        lemma_lex_le_total(a.drop_first(), b.drop_first());
    }
}

pub proof fn lemma_lex_le_antisym(a: Seq<char>, b: Seq<char>)
    requires
        lex_le(a, b),
        lex_le(b, a),
    ensures
        a == b,
    decreases a.len(),
{
    if a.len() == 0 {
        assert(b.len() == 0);
        assert(a =~= b);
    } else {
        assert(b.len() > 0);
        assert(a[0] == b[0]);
        lemma_lex_le_antisym(a.drop_first(), b.drop_first());
        assert(a.drop_first() == b.drop_first());
        assert(a.drop_first().len() == a.len() - 1);
        assert(b.drop_first().len() == b.len() - 1);
        assert(a.len() == b.len());
        assert forall|i: int| 0 <= i < a.len() implies a[i] == b[i] by {
            if i > 0 {
                assert(a[i] == a.drop_first()[i - 1]);
                assert(b[i] == b.drop_first()[i - 1]);
            }
        }
        assert(a =~= b);
    }
}

pub proof fn lemma_lex_le_trans(a: Seq<char>, b: Seq<char>, c: Seq<char>)
    requires
        lex_le(a, b),
        lex_le(b, c),
    ensures
        lex_le(a, c),
    decreases a.len(),
{
    if a.len() > 0 {
        assert(b.len() > 0);
        assert(c.len() > 0);
        if a[0] == b[0] && b[0] == c[0] {
            lemma_lex_le_trans(a.drop_first(), b.drop_first(), c.drop_first());
        }
    }
}

/// The lexicographic order is a total ordering.
pub proof fn lemma_lex_total_ordering()
    ensures
        total_ordering(lex_leq()),
{
    let leq = lex_leq();
    assert forall|a: Seq<char>| #[trigger] leq(a, a) by {
        lemma_lex_le_refl(a);
    }
    assert forall|a: Seq<char>, b: Seq<char>| #[trigger] leq(a, b) && #[trigger] leq(b, a)
        implies a == b by {
        lemma_lex_le_antisym(a, b);
    }
    assert forall|a: Seq<char>, b: Seq<char>, c: Seq<char>|
        #[trigger] leq(a, b) && #[trigger] leq(b, c) implies leq(a, c) by {
        lemma_lex_le_trans(a, b, c);
    }
    assert forall|a: Seq<char>, b: Seq<char>| #[trigger] leq(a, b) || #[trigger] leq(b, a) by {
        lemma_lex_le_total(a, b);
    }
}

/// Sortedness under the lexicographic order.
pub open spec fn sorted_lex(v: Seq<Seq<char>>) -> bool {
    forall|i: int, j: int| 0 <= i < j < v.len() ==> #[trigger] lex_le(v[i], v[j])
}

proof fn lemma_sorted_lex_is_sorted_by(v: Seq<Seq<char>>)
    requires
        sorted_lex(v),
    ensures
        sorted_by(v, lex_leq()),
{
    assert forall|i: int, j: int| 0 <= i < j < v.len() implies #[trigger] lex_leq()(v[i], v[j]) by {
        assert(lex_le(v[i], v[j]));
    }
}

/// If two strings agree on their first `i` characters, their order is the
/// order of their remainders.
proof fn lemma_lex_le_common_prefix(a: Seq<char>, b: Seq<char>, i: int)
    requires
        0 <= i <= a.len(),
        i <= b.len(),
        forall|j: int| 0 <= j < i ==> a[j] == b[j],
    ensures
        lex_le(a, b) == lex_le(a.skip(i), b.skip(i)),
    decreases i,
{
    if i == 0 {
        assert(a.skip(0) =~= a);
        assert(b.skip(0) =~= b);
    } else {
        assert(a[0] == b[0]);
        lemma_lex_le_common_prefix(a.drop_first(), b.drop_first(), i - 1);
        assert(a.drop_first().skip(i - 1) =~= a.skip(i));
        assert(b.drop_first().skip(i - 1) =~= b.skip(i));
    }
}

/// Decides the lexicographic order of two strings, character by character.
pub fn str_lex_le(a: &str, b: &str) -> (r: bool)
    ensures
        r == lex_le(a@, b@),
{
    let na = a.unicode_len();
    let nb = b.unicode_len();
    let mut i: usize = 0;
    loop
        invariant
            a@.len() == na,
            b@.len() == nb,
            i <= na,
            i <= nb,
            forall|j: int| 0 <= j < i ==> a@[j] == b@[j],
        decreases na - i,
    {
        proof {
            lemma_lex_le_common_prefix(a@, b@, i as int);
        }
        if i == na {
            return true;
        }
        if i == nb {
            return false;
        }
        let ca = a.get_char(i);
        let cb = b.get_char(i);
        if ca != cb {
            proof {
                assert(a@.skip(i as int)[0] == ca);
                assert(b@.skip(i as int)[0] == cb);
            }
            return ca < cb;
        }
        i += 1;
    }
}

/// Sorts key strings into the canonical (lexicographic) order.
pub fn sort_key_strings(keys: &Vec<String>) -> (r: Vec<String>)
    ensures
        key_views(r@) == canonical_keys(key_views(keys@)),
        r@.len() == keys@.len(),
{
    broadcast use vstd::seq_lib::group_to_multiset_ensures;

    let mut out: Vec<String> = Vec::new();
    let mut i: usize = 0;
    while i < keys.len()
        invariant
            i <= keys@.len(),
            sorted_lex(key_views(out@)),
            key_views(out@).to_multiset() == key_views(keys@.take(i as int)).to_multiset(),
            out@.len() == i,
        decreases keys@.len() - i,
    {
        let k = keys[i].clone();
        let mut j: usize = 0;
        while j < out.len() && str_lex_le(out[j].as_str(), k.as_str())
            invariant
                j <= out@.len(),
                forall|p: int| 0 <= p < j ==> #[trigger] lex_le(key_views(out@)[p], k@),
            decreases out@.len() - j,
        {
            j += 1;
        }
        let mut merged: Vec<String> = Vec::new();
        let mut p: usize = 0;
        while p < j
            invariant
                p <= j,
                j <= out@.len(),
                merged@ == out@.take(p as int),
            decreases j - p,
        {
            merged.push(out[p].clone());
            proof {
                assert(merged@ =~= out@.take(p as int + 1));
            }
            p += 1;
        }
        merged.push(k.clone());
        let mut q: usize = j;
        while q < out.len()
            invariant
                j <= q <= out@.len(),
                merged@ == out@.take(j as int) + seq![k] + out@.subrange(j as int, q as int),
            decreases out@.len() - q,
        {
            merged.push(out[q].clone());
            proof {
                assert(merged@ =~= out@.take(j as int) + seq![k] + out@.subrange(
                    j as int,
                    q as int + 1,
                ));
            }
            q += 1;
        }
        proof {
            broadcast use vstd::multiset::group_multiset_axioms;
            broadcast use vstd::seq_lib::group_to_multiset_ensures;

            let vout = key_views(out@);
            let vmerged = key_views(merged@);
            let lo = key_views(out@.take(j as int));
            let hi = key_views(out@.skip(j as int));
            assert(out@.subrange(j as int, out@.len() as int) =~= out@.skip(j as int));
            assert(vmerged =~= lo + seq![k@] + hi);
            assert(lo + hi =~= vout);
            assert(lo =~= vout.take(j as int));
            assert(hi =~= vout.skip(j as int));
            assert forall|t: int| 0 <= t < j implies #[trigger] vmerged[t] == vout[t] by {}
            assert forall|t: int| j < t < vmerged.len() implies #[trigger] vmerged[t] == vout[t
                - 1] by {}
            // Every element before the insertion point stays below the key,
            // every element after stays above it.
            assert forall|x: int, y: int| 0 <= x < y < vmerged.len() implies #[trigger] lex_le(
                vmerged[x],
                vmerged[y],
            ) by {
                if j < out@.len() {
                    lemma_lex_le_total(vout[j as int], k@);
                }
                if x < j && y == j {
                    assert(lex_le(vmerged[x], k@));
                } else if x == j && y > j {
                    assert(vmerged[y] == vout[y - 1]);
                    assert(lex_le(k@, vout[j as int]));
                    if y - 1 > j {
                        assert(lex_le(vout[j as int], vout[y - 1]));
                        lemma_lex_le_trans(k@, vout[j as int], vout[y - 1]);
                    }
                } else if x < j && y > j {
                    assert(vmerged[x] == vout[x]);
                    assert(vmerged[y] == vout[y - 1]);
                    if y - 1 == x {
                        assert(lex_le(vmerged[x], k@));
                        assert(lex_le(k@, vout[j as int]));
                    } else {
                        assert(lex_le(vout[x], vout[y - 1]));
                    }
                } else if x < j && y < j {
                    assert(lex_le(vout[x], vout[y]));
                } else if x > j && y > j {
                    assert(lex_le(vout[x - 1], vout[y - 1]));
                }
            }
            assert(sorted_lex(vmerged));
            // The multiset gains exactly the inserted key.
            lemma_multiset_commutative(lo + seq![k@], hi);
            lemma_multiset_commutative(lo, seq![k@]);
            lemma_multiset_commutative(lo, hi);
            assert(seq![k@] =~= Seq::<Seq<char>>::empty().push(k@));
            assert(Seq::<Seq<char>>::empty().to_multiset().len() == 0);
            assert(Seq::<Seq<char>>::empty().to_multiset() =~= Multiset::empty());
            assert(seq![k@].to_multiset() =~= Multiset::<Seq<char>>::empty().insert(k@));
            assert(vmerged.to_multiset() =~= vout.to_multiset().insert(k@));
            assert(key_views(keys@.take(i as int + 1)) =~= key_views(keys@.take(i as int)).push(
                k@,
            ));
            assert(key_views(keys@.take(i as int)).push(k@).to_multiset() =~= key_views(
                keys@.take(i as int),
            ).to_multiset().insert(k@));
            assert(key_views(keys@.take(i as int + 1)).to_multiset() =~= key_views(
                keys@.take(i as int),
            ).to_multiset().insert(k@));
        }
        out = merged;
        i += 1;
    }
    proof {
        assert(keys@.take(keys@.len() as int) =~= keys@);
        lemma_lex_total_ordering();
        key_views(keys@).lemma_sort_by_ensures(lex_leq());
        lemma_sorted_lex_is_sorted_by(key_views(out@));
        lemma_sorted_unique(key_views(out@), key_views(keys@).sort_by(lex_leq()), lex_leq());
    }
    out
}

/// The canonical order of a key set: its string encodings sorted
/// lexicographically.
pub open spec fn canonical_keys(s: Seq<Seq<char>>) -> Seq<Seq<char>> {
    s.sort_by(lex_leq())
}

/// Key lists holding the same keys, in whatever order, have the same
/// canonical order: sorting forgets the order the configuration listed the
/// keys in.
pub proof fn lemma_canonical_order_of_permutation(a: Seq<Seq<char>>, b: Seq<Seq<char>>)
    requires
        a.to_multiset() == b.to_multiset(),
    ensures
        canonical_keys(a) == canonical_keys(b),
        a.len() == b.len(),
{
    broadcast use vstd::seq_lib::group_to_multiset_ensures;

    assert(a.len() == a.to_multiset().len());
    assert(b.len() == b.to_multiset().len());
    lemma_lex_total_ordering();
    a.lemma_sort_by_ensures(lex_leq());
    b.lemma_sort_by_ensures(lex_leq());
    lemma_sorted_unique(a.sort_by(lex_leq()), b.sort_by(lex_leq()), lex_leq());
    assert(a.sort_by(lex_leq()) =~= b.sort_by(lex_leq()));
}

} // verus!
