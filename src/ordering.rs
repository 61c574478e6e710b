//! Lexicographic order of texts and a stable display order.

use vstd::prelude::*;

verus! {

/// Lexicographic order of texts by character code, the order of Rust's `str`.
pub open spec fn lex_le(a: Seq<char>, b: Seq<char>) -> bool
    decreases a.len(),
{
    if a.len() == 0 {
        true
    } else if b.len() == 0 {
        false
    } else if a[0] < b[0] {
        true
    } else if a[0] > b[0] {
        false
    } else {
        lex_le(a.drop_first(), b.drop_first())
    }
}

pub proof fn lemma_lex_total(a: Seq<char>, b: Seq<char>)
    ensures
        lex_le(a, b) || lex_le(b, a),
    decreases a.len(),
{
    if a.len() > 0 && b.len() > 0 && a[0] == b[0] {
        lemma_lex_total(a.drop_first(), b.drop_first());
    }
}

pub proof fn lemma_lex_antisymmetric(a: Seq<char>, b: Seq<char>)
    requires
        lex_le(a, b),
        lex_le(b, a),
    ensures
        a == b,
    decreases a.len(),
{
    if a.len() > 0 && b.len() > 0 {
        lemma_lex_antisymmetric(a.drop_first(), b.drop_first());
        assert(a[0] == b[0]);
        assert(a =~= seq![a[0]] + a.drop_first());
        assert(b =~= seq![b[0]] + b.drop_first());
    } else {
        assert(a.len() == 0 && b.len() == 0);
        assert(a =~= b);
    }
}

pub proof fn lemma_lex_transitive(a: Seq<char>, b: Seq<char>, c: Seq<char>)
    requires
        lex_le(a, b),
        lex_le(b, c),
    ensures
        lex_le(a, c),
    decreases a.len(),
{
    if a.len() > 0 && b.len() > 0 && c.len() > 0 && a[0] == b[0] && b[0] == c[0] {
        lemma_lex_transitive(a.drop_first(), b.drop_first(), c.drop_first());
    }
}

/// Compares two texts in lexicographic order.
pub fn text_le(a: &str, b: &str) -> (r: bool)
    ensures
        r == lex_le(a@, b@),
{
    let n = a.unicode_len();
    let m = b.unicode_len();
    let mut i: usize = 0;
    assert(a@.subrange(0, n as int) =~= a@);
    assert(b@.subrange(0, m as int) =~= b@);
    while i < n && i < m
        invariant
            n == a@.len(),
            m == b@.len(),
            i <= n,
            i <= m,
            lex_le(a@, b@) == lex_le(a@.subrange(i as int, n as int), b@.subrange(i as int, m as int)),
        decreases n - i,
    {
        let x = a.get_char(i);
        let y = b.get_char(i);
        let ghost sa = a@.subrange(i as int, n as int);
        let ghost sb = b@.subrange(i as int, m as int);
        assert(sa[0] == a@[i as int] && sb[0] == b@[i as int]);
        if x < y {
            return true;
        }
        if x > y {
            return false;
        }
        assert(sa.drop_first() =~= a@.subrange(i + 1, n as int));
        assert(sb.drop_first() =~= b@.subrange(i + 1, m as int));
        i = i + 1;
    }
    i == n
}

pub open spec fn key_views(keys: Seq<String>) -> Seq<Seq<char>> {
    keys.map_values(|k: String| k@)
}

/// `order` lists each position of `keys` once, by key in lexicographic order, equal keys
/// in the order they come in.
pub open spec fn is_stable_order(keys: Seq<Seq<char>>, order: Seq<usize>) -> bool {
    &&& order.len() == keys.len()
    &&& forall|i: int| 0 <= i < order.len() ==> (#[trigger] order[i]) < keys.len()
    &&& forall|x: usize| x < keys.len() ==> #[trigger] order.contains(x)
    &&& forall|i: int, j: int| 0 <= i < j < order.len() ==> (#[trigger] order[i]) != (#[trigger] order[j])
    &&& forall|i: int, j: int|
        0 <= i < j < order.len() ==> lex_le(keys[(#[trigger] order[i]) as int], keys[(#[trigger] order[j]) as int])
    &&& forall|i: int, j: int|
        0 <= i < j < order.len() && keys[(#[trigger] order[i]) as int] == keys[(#[trigger] order[j]) as int]
            ==> order[i] < order[j]
}

/// The display order of `keys`: stable and lexicographic.
pub fn stable_order(keys: &Vec<String>) -> (r: Vec<usize>)
    ensures
        is_stable_order(key_views(keys@), r@),
{
    let ghost kv = key_views(keys@);
    let mut out: Vec<usize> = Vec::new();
    let mut k: usize = 0;
    while k < keys.len()
        invariant
            kv == key_views(keys@),
            k <= keys@.len(),
            out@.len() == k,
            forall|i: int| 0 <= i < out@.len() ==> (#[trigger] out@[i]) < k,
            forall|x: usize| x < k ==> #[trigger] out@.contains(x),
            forall|i: int, j: int| 0 <= i < j < out@.len() ==> (#[trigger] out@[i]) != (#[trigger] out@[j]),
            forall|i: int, j: int|
                0 <= i < j < out@.len() ==> lex_le(kv[(#[trigger] out@[i]) as int], kv[(#[trigger] out@[j]) as int]),
            forall|i: int, j: int|
                0 <= i < j < out@.len() && kv[(#[trigger] out@[i]) as int] == kv[(#[trigger] out@[j]) as int]
                    ==> out@[i] < out@[j],
        decreases keys@.len() - k,
    {
        let x = keys[k].as_str();
        assert(kv[k as int] == x@);
        let mut p: usize = 0;
        while p < out.len() && text_le(keys[out[p]].as_str(), x)
            invariant
                kv == key_views(keys@),
                k < keys@.len(),
                x@ == kv[k as int],
                p <= out@.len(),
                forall|i: int| 0 <= i < out@.len() ==> (#[trigger] out@[i]) < k,
                forall|i: int| 0 <= i < p ==> lex_le(kv[(#[trigger] out@[i]) as int], x@),
            decreases out@.len() - p,
        {
            assert(kv[out@[p as int] as int] == keys@[out@[p as int] as int]@);
            p = p + 1;
        }
        let ghost before = out@;
        proof {
            if p < before.len() {
                assert(kv[before[p as int] as int] == keys@[before[p as int] as int]@);
                assert(!lex_le(kv[before[p as int] as int], x@));
                lemma_lex_total(kv[before[p as int] as int], x@);
            }
        }
        out.insert(p, k);
        proof {
            assert(out@ =~= before.subrange(0, p as int) + seq![k] + before.subrange(p as int, before.len() as int));
            assert forall|i: int, j: int| 0 <= i < j < out@.len() implies lex_le(
                kv[(#[trigger] out@[i]) as int],
                kv[(#[trigger] out@[j]) as int],
            ) && (kv[out@[i] as int] == kv[out@[j] as int] ==> out@[i] < out@[j]) by {
                let q = p as int;
                if j < q {
                    assert(out@[i] == before[i] && out@[j] == before[j]);
                } else if j == q {
                    assert(out@[i] == before[i]);
                } else if i == q {
                    assert(out@[j] == before[j - 1]);
                    let b = kv[before[q] as int];
                    lemma_lex_total(b, x@);
                    if j - 1 > q {
                        assert(lex_le(b, kv[before[j - 1] as int]));
                        lemma_lex_transitive(x@, b, kv[before[j - 1] as int]);
                        if x@ == kv[before[j - 1] as int] {
                            lemma_lex_antisymmetric(b, x@);
                        }
                    } else if x@ == b {
                        assert(lex_le(b, x@));
                    }
                } else if i < q {
                    assert(out@[i] == before[i] && out@[j] == before[j - 1]);
                } else {
                    assert(out@[i] == before[i - 1] && out@[j] == before[j - 1]);
                }
            }
            assert forall|i: int, j: int| 0 <= i < j < out@.len() implies (#[trigger] out@[i]) != (
            #[trigger] out@[j]) by {
                let q = p as int;
                if i < q && j < q {
                    assert(out@[i] == before[i] && out@[j] == before[j]);
                } else if i < q && j > q {
                    assert(out@[i] == before[i] && out@[j] == before[j - 1]);
                } else if i > q {
                    assert(out@[i] == before[i - 1] && out@[j] == before[j - 1]);
                } else if i == q {
                    assert(out@[j] == before[j - 1]);
                } else {
                    assert(out@[i] == before[i]);
                }
            }
            assert forall|x: usize| x < k + 1 implies #[trigger] out@.contains(x) by {
                let q = p as int;
                if x == k {
                    assert(out@[q] == k);
                } else {
                    assert(before.contains(x));
                    let i = choose|i: int| 0 <= i < before.len() && before[i] == x;
                    if i < q {
                        assert(out@[i] == x);
                    } else {
                        assert(out@[i + 1] == x);
                    }
                }
            }
            assert forall|i: int| 0 <= i < out@.len() implies (#[trigger] out@[i]) < k + 1 by {
                let q = p as int;
                if i < q {
                    assert(out@[i] == before[i]);
                } else if i > q {
                    assert(out@[i] == before[i - 1]);
                }
            }
        }
        k = k + 1;
    }
    out
}

} // verus!
