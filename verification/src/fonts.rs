//! Normalisation of enumerated font family names: each name trimmed of
//! surrounding whitespace, empty names dropped, duplicates removed, and the
//! rest in ascending lexicographic order. Enumerating the families is
//! platform I/O and lives with the embedding application.

use vstd::prelude::*;

use crate::text::{
    chars_to_string, is_space, is_space_char, lemma_trim_end_at, lemma_trim_start_at, to_chars,
    trim_spec, trim_start_spec,
};

verus! {

/// Strict lexicographic order on character sequences, by code point. For
/// valid text this is the order `String`'s own ordering gives.
pub open spec fn lex_lt(a: Seq<char>, b: Seq<char>) -> bool
    decreases a.len(),
{
    if b.len() == 0 {
        false
    } else if a.len() == 0 {
        true
    } else if a.first() != b.first() {
        (a.first() as int) < (b.first() as int)
    } else {
        lex_lt(a.drop_first(), b.drop_first())
    }
}

/// `lex_lt` is trichotomous: sequences neither way smaller are equal.
pub proof fn lemma_lex_lt_trichotomy(a: Seq<char>, b: Seq<char>)
    requires
        !lex_lt(a, b),
        !lex_lt(b, a),
    ensures
        a == b,
    decreases a.len(),
{
    if a.len() == 0 || b.len() == 0 {
        assert(a =~= b);
    } else {
        assert(a.first() == b.first());
        lemma_lex_lt_trichotomy(a.drop_first(), b.drop_first());
        assert(a =~= seq![a.first()] + a.drop_first());
        assert(b =~= seq![b.first()] + b.drop_first());
    }
}

/// `lex_lt` is transitive.
pub proof fn lemma_lex_lt_transitive(a: Seq<char>, b: Seq<char>, c: Seq<char>)
    requires
        lex_lt(a, b),
        lex_lt(b, c),
    ensures
        lex_lt(a, c),
    decreases a.len(),
{
    if a.len() == 0 {
        assert(c.len() > 0);
    } else {
        assert(b.len() > 0 && c.len() > 0);
        if a.first() == b.first() && b.first() == c.first() {
            lemma_lex_lt_transitive(a.drop_first(), b.drop_first(), c.drop_first());
        }
    }
}

/// Decides `lex_lt` on strings.
fn str_lt(a: &str, b: &str) -> (r: bool)
    ensures
        r == lex_lt(a@, b@),
    decreases a@.len(),
{
    let na = a.unicode_len();
    let nb = b.unicode_len();
    if nb == 0 {
        false
    } else if na == 0 {
        true
    } else {
        let ca = a.get_char(0);
        let cb = b.get_char(0);
        if ca != cb {
            (ca as u32) < (cb as u32)
        } else {
            let ta = a.substring_char(1, na);
            let tb = b.substring_char(1, nb);
            proof {
                assert(ta@ =~= a@.drop_first());
                assert(tb@ =~= b@.drop_first());
            }
            str_lt(ta, tb)
        }
    }
}

/// The string with surrounding whitespace removed.
fn trim_str(s: &str) -> (t: String)
    ensures
        t@ == trim_spec(s@),
{
    let v = to_chars(s);
    let n = v.len();
    let mut a: usize = 0;
    while a < n && is_space(v[a])
        invariant
            a <= n,
            n == v@.len(),
            forall|i: int| 0 <= i < a ==> is_space_char(v@[i]),
        decreases n - a,
    {
        a = a + 1;
    }
    proof {
        lemma_trim_start_at(v@, a as int);
    }
    if a == n {
        proof {
            assert(trim_start_spec(v@) =~= Seq::<char>::empty());
            assert(trim_spec(s@) =~= Seq::<char>::empty());
        }
        let empty: Vec<char> = Vec::new();
        return chars_to_string(&empty);
    }
    let mut b: usize = n;
    while b > a && is_space(v[b - 1])
        invariant
            a <= b <= n,
            n == v@.len(),
            forall|i: int| b <= i < n ==> is_space_char(v@[i]),
        decreases b,
    {
        b = b - 1;
    }
    proof {
        if b == a {
            assert(is_space_char(v@[a as int]));
            assert(false);
        }
        let t1 = trim_start_spec(v@);
        assert(t1 =~= v@.subrange(a as int, n as int));
        assert forall|i: int| b - a <= i < t1.len() implies is_space_char(t1[i]) by {
            assert(t1[i] == v@[a + i]);
        }
        assert(t1[b - 1 - a] == v@[b - 1]);
        lemma_trim_end_at(t1, b - 1 - a);
        assert(trim_spec(s@) =~= v@.subrange(a as int, b as int));
    }
    let mut out: Vec<char> = Vec::new();
    let mut k: usize = a;
    while k < b
        invariant
            a <= k <= b <= n,
            n == v@.len(),
            out@ == v@.subrange(a as int, k as int),
        decreases b - k,
    {
        out.push(v[k]);
        k = k + 1;
        assert(out@ =~= v@.subrange(a as int, k as int));
    }
    chars_to_string(&out)
}

/// The views of a sequence of strings.
pub open spec fn seq_views(ss: Seq<String>) -> Seq<Seq<char>> {
    Seq::new(ss.len(), |i: int| ss[i]@)
}

/// Strictly ascending lexicographic order, which also rules out duplicates.
pub open spec fn strictly_sorted(ss: Seq<String>) -> bool {
    forall|i: int, j: int| 0 <= i < j < ss.len() ==> lex_lt(ss[i]@, ss[j]@)
}

/// Inserts `name` into the sorted list, keeping it sorted and ignoring a
/// duplicate.
fn insert_sorted(list: &mut Vec<String>, name: String)
    requires
        strictly_sorted(old(list)@),
    ensures
        strictly_sorted(final(list)@),
        forall|t: Seq<char>| #[trigger] seq_views(final(list)@).contains(t) <==> (seq_views(
            old(list)@,
        ).contains(t) || t == name@),
{
    let n = list.len();
    let mut p: usize = 0;
    while p < n && str_lt(list[p].as_str(), name.as_str())
        invariant
            p <= n,
            n == list@.len(),
            forall|i: int| 0 <= i < p ==> lex_lt(list@[i]@, name@),
            list@ == old(list)@,
        decreases n - p,
    {
        p = p + 1;
    }
    if p < n && !str_lt(name.as_str(), list[p].as_str()) {
        // equal: already present
        proof {
            lemma_lex_lt_trichotomy(list@[p as int]@, name@);
            assert(seq_views(list@)[p as int] == name@);
            assert(seq_views(list@).contains(name@));
        }
        return ;
    }
    proof {
        if p < n {
            assert(lex_lt(name@, list@[p as int]@));
        }
    }
    let ghost pre = list@;
    list.insert(p, name);
    proof {
        let post = list@;
        assert forall|i: int, j: int| 0 <= i < j < post.len() implies lex_lt(
            post[i]@,
            post[j]@,
        ) by {
            if j < p {
                assert(post[i] == pre[i] && post[j] == pre[j]);
            } else if i > p {
                assert(post[i] == pre[i - 1] && post[j] == pre[j - 1]);
            } else if j == p {
                assert(post[j]@ == name@ && post[i] == pre[i]);
            } else if i == p {
                // name < pre[p] <= pre[j-1]
                assert(post[i]@ == name@ && post[j] == pre[j - 1]);
                assert(lex_lt(name@, pre[p as int]@));
                if j - 1 > p {
                    assert(lex_lt(pre[p as int]@, pre[j - 1]@));
                    lemma_lex_lt_transitive(name@, pre[p as int]@, pre[j - 1]@);
                }
            } else {
                // i < p < j
                assert(post[i] == pre[i] && post[j] == pre[j - 1]);
                assert(lex_lt(pre[i]@, name@));
                assert(lex_lt(name@, pre[p as int]@));
                if j - 1 > p {
                    lemma_lex_lt_transitive(pre[i]@, name@, pre[p as int]@);
                    assert(lex_lt(pre[p as int]@, pre[j - 1]@));
                    lemma_lex_lt_transitive(pre[i]@, pre[p as int]@, pre[j - 1]@);
                } else {
                    lemma_lex_lt_transitive(pre[i]@, name@, pre[j - 1]@);
                }
            }
        }
        assert forall|t: Seq<char>| #[trigger] seq_views(post).contains(t) implies (seq_views(
            pre,
        ).contains(t) || t == name@) by {
            let i = choose|i: int| 0 <= i < seq_views(post).len() && seq_views(post)[i] == t;
            if i < p {
                assert(seq_views(pre)[i] == t);
            } else if i > p {
                assert(seq_views(pre)[i - 1] == t);
            }
        }
        assert forall|t: Seq<char>| seq_views(pre).contains(t) || t == name@ implies #[trigger]
        seq_views(post).contains(t) by {
            if t == name@ {
                assert(seq_views(post)[p as int] == t);
            } else {
                let i = choose|i: int| 0 <= i < seq_views(pre).len() && seq_views(pre)[i] == t;
                if i < p {
                    assert(seq_views(post)[i] == t);
                } else {
                    assert(seq_views(post)[i + 1] == t);
                }
            }
        }
    }
}

/// Whether `t` is the trimmed form of some enumerated name, once empty
/// results are dropped.
pub open spec fn is_normalized_of(t: Seq<char>, families: Seq<String>) -> bool {
    t.len() > 0 && exists|k: int| 0 <= k < families.len() && t == trim_spec(#[trigger] families[k]@)
}

/// Normalises enumerated font family names: trims each, drops the empty,
/// removes duplicates, and returns the rest in ascending lexicographic
/// order — the set of names is exactly the non-empty trimmed forms of the
/// input.
pub fn normalize_font_families(families: &Vec<String>) -> (r: Vec<String>)
    ensures
        strictly_sorted(r@),
        forall|t: Seq<char>| #[trigger] seq_views(r@).contains(t) <==> is_normalized_of(
            t,
            families@,
        ),
{
    let mut out: Vec<String> = Vec::new();
    let n = families.len();
    let mut k: usize = 0;
    while k < n
        invariant
            k <= n,
            n == families@.len(),
            strictly_sorted(out@),
            forall|t: Seq<char>| #[trigger] seq_views(out@).contains(t) <==> (t.len() > 0
                && exists|i: int| 0 <= i < k && t == trim_spec(#[trigger] families@[i]@)),
        decreases n - k,
    {
        let trimmed = trim_str(families[k].as_str());
        let ghost pre_views = seq_views(out@);
        if trimmed.as_str().unicode_len() > 0 {
            insert_sorted(&mut out, trimmed);
        }
        k = k + 1;
        proof {
            assert forall|t: Seq<char>| #[trigger] seq_views(out@).contains(t) implies (t.len() > 0
                && exists|i: int| 0 <= i < k && t == trim_spec(#[trigger] families@[i]@)) by {
                if pre_views.contains(t) {
                    let i = choose|i: int| 0 <= i < k - 1 && t == trim_spec(
                        #[trigger] families@[i]@,
                    );
                    assert(0 <= i < k && t == trim_spec(families@[i]@));
                } else {
                    assert(t == trim_spec(families@[k - 1]@));
                }
            }
            assert forall|t: Seq<char>| (t.len() > 0 && exists|i: int| 0 <= i < k && t == trim_spec(
                #[trigger] families@[i]@,
            )) implies #[trigger] seq_views(out@).contains(t) by {
                let i = choose|i: int| 0 <= i < k && t == trim_spec(#[trigger] families@[i]@);
                if i < k - 1 {
                    assert(pre_views.contains(t));
                }
            }
        }
    }
    out
}

} // verus!
