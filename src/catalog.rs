//! Display order of origins and of the manager's app list.

use vstd::prelude::*;

use crate::model::WebAppDefinition;
use crate::ordering::{key_views, lex_le, stable_order};
use crate::permissions::{lemma_contains, lemma_len, PermissionStore};
use crate::text::{contains, contains_text, lower_ascii, to_ascii_lowercase, trim, trimmed};

verus! {

/// The origins of a store in display order: each once, lexicographically.
pub fn sorted_origins(store: &PermissionStore) -> (r: Vec<String>)
    requires
        store.wf(),
    ensures
        r@.len() == store.view().dom().len(),
        forall|i: int| 0 <= i < r@.len() ==> store.view().contains_key(#[trigger] r@[i]@),
        forall|o: Seq<char>| store.view().contains_key(o) ==> exists|i: int| 0 <= i < r@.len() && (#[trigger] r@[i])@ == o,
        forall|i: int, j: int| 0 <= i < j < r@.len() ==> lex_le((#[trigger] r@[i])@, (#[trigger] r@[j])@),
{
    let n = store.origins.len();
    let mut keys: Vec<String> = Vec::new();
    let mut i: usize = 0;
    while i < n
        invariant
            n == store.origins@.len(),
            i <= n,
            keys@.len() == i,
            forall|k: int| 0 <= k < i ==> (#[trigger] keys@[k])@ == store.origins@[k].origin@,
        decreases n - i,
    {
        keys.push(store.origins[i].origin.clone());
        i = i + 1;
    }
    let order = stable_order(&keys);
    let ghost kv = key_views(keys@);
    let mut r: Vec<String> = Vec::new();
    let mut j: usize = 0;
    while j < n
        invariant
            n == store.origins@.len(),
            n == keys@.len(),
            kv == key_views(keys@),
            crate::ordering::is_stable_order(kv, order@),
            j <= n,
            r@.len() == j,
            forall|k: int| 0 <= k < j ==> (#[trigger] r@[k])@ == kv[order@[k] as int],
        decreases n - j,
    {
        r.push(keys[order[j]].clone());
        j = j + 1;
    }
    proof {
        lemma_len(store.origins@);
        assert forall|i: int| 0 <= i < r@.len() implies store.view().contains_key(#[trigger] r@[i]@) by {
            let k = order@[i] as int;
            lemma_contains(store.origins@, r@[i]@);
            assert(store.origins@[k].origin@ == r@[i]@);
        }
        assert forall|o: Seq<char>| store.view().contains_key(o) implies exists|i: int|
            0 <= i < r@.len() && (#[trigger] r@[i])@ == o by {
            lemma_contains(store.origins@, o);
            let k = choose|k: int| 0 <= k < store.origins@.len() && (#[trigger] store.origins@[k]).origin@ == o;
            assert(order@.contains(k as usize));
            let i = choose|i: int| 0 <= i < order@.len() && order@[i] == k as usize;
            assert(r@[i]@ == o);
        }
        assert forall|i: int, j: int| 0 <= i < j < r@.len() implies lex_le((#[trigger] r@[i])@, (#[trigger] r@[j])@) by {
            assert(lex_le(kv[order@[i] as int], kv[order@[j] as int]));
        }
    }
    r
}

/// The search text of the manager list: trimmed and in ASCII lower case.
pub open spec fn query_needle(query: Seq<char>) -> Seq<char> {
    lower_ascii(trimmed(query))
}

/// An app is listed for a search text (already trimmed and lower-cased) when the text is
/// empty, occurs in its name, start URL or origin, or names a behaviour it has on.
pub open spec fn app_matches(app: WebAppDefinition, needle: Seq<char>) -> bool {
    ||| needle.len() == 0
    ||| contains_text(lower_ascii(app.name@), needle)
    ||| contains_text(lower_ascii(app.start_url@), needle)
    ||| contains_text(lower_ascii(app.primary_origin@), needle)
    ||| (app.behavior.open_external_links && contains_text("external"@, needle))
    ||| (app.behavior.show_navigation && contains_text("navigation"@, needle))
}

/// Whether `app` is listed for `needle`, a trimmed lower-case search text.
pub fn matches_query(app: &WebAppDefinition, needle: &str) -> (r: bool)
    ensures
        r == app_matches(*app, needle@),
{
    needle.unicode_len() == 0 || contains(to_ascii_lowercase(app.name.as_str()).as_str(), needle)
        || contains(to_ascii_lowercase(app.start_url.as_str()).as_str(), needle) || contains(
        to_ascii_lowercase(app.primary_origin.as_str()).as_str(),
        needle,
    ) || (app.behavior.open_external_links && contains("external", needle)) || (
    app.behavior.show_navigation && contains("navigation", needle))
}

/// The sort key of an app in the manager list.
pub open spec fn list_key(app: WebAppDefinition) -> Seq<char> {
    lower_ascii(app.name@)
}

/// The positions of `apps` that the manager lists for `query`: every matching app once,
/// by name ignoring ASCII case, apps with equal keys in the order they come in.
pub fn list_order(apps: &Vec<WebAppDefinition>, query: &str) -> (r: Vec<usize>)
    ensures
        forall|i: int| 0 <= i < r@.len() ==> (#[trigger] r@[i]) < apps@.len() && app_matches(apps@[r@[i] as int], query_needle(query@)),
        forall|k: usize| k < apps@.len() && app_matches(apps@[k as int], query_needle(query@)) ==> #[trigger] r@.contains(k),
        forall|i: int, j: int| 0 <= i < j < r@.len() ==> (#[trigger] r@[i]) != (#[trigger] r@[j]),
        forall|i: int, j: int|
            0 <= i < j < r@.len() ==> lex_le(list_key(apps@[(#[trigger] r@[i]) as int]), list_key(apps@[(#[trigger] r@[j]) as int])),
        forall|i: int, j: int|
            0 <= i < j < r@.len() && list_key(apps@[(#[trigger] r@[i]) as int]) == list_key(apps@[(#[trigger] r@[j]) as int])
                ==> r@[i] < r@[j],
{
    let needle = to_ascii_lowercase(trim(query).as_str());
    let n = apps.len();
    let mut keys: Vec<String> = Vec::new();
    let mut i: usize = 0;
    while i < n
        invariant
            n == apps@.len(),
            i <= n,
            keys@.len() == i,
            forall|k: int| 0 <= k < i ==> (#[trigger] keys@[k])@ == list_key(apps@[k]),
        decreases n - i,
    {
        keys.push(to_ascii_lowercase(apps[i].name.as_str()));
        i = i + 1;
    }
    let order = stable_order(&keys);
    let ghost kv = key_views(keys@);
    assert forall|k: int| 0 <= k < n implies kv[k] == list_key(apps@[k]) by {
        assert(kv[k] == keys@[k]@);
    }
    let mut r: Vec<usize> = Vec::new();
    let ghost mut pos: Seq<int> = Seq::empty();
    let mut j: usize = 0;
    while j < n
        invariant
            n == apps@.len(),
            n == keys@.len(),
            kv == key_views(keys@),
            forall|k: int| 0 <= k < n ==> kv[k] == list_key(apps@[k]),
            crate::ordering::is_stable_order(kv, order@),
            needle@ == query_needle(query@),
            j <= n,
            pos.len() == r@.len(),
            forall|a: int| 0 <= a < pos.len() ==> 0 <= #[trigger] pos[a] < j && r@[a] == order@[pos[a]],
            forall|a: int, b: int| 0 <= a < b < pos.len() ==> #[trigger] pos[a] < #[trigger] pos[b],
            forall|a: int| 0 <= a < r@.len() ==> app_matches(apps@[(#[trigger] r@[a]) as int], needle@),
            forall|a: int| 0 <= a < r@.len() ==> (#[trigger] r@[a]) < n,
            forall|c: int| 0 <= c < j && app_matches(apps@[order@[c] as int], needle@) ==> #[trigger] r@.contains(order@[c]),
        decreases n - j,
    {
        let k = order[j];
        let ghost r0 = r@;
        if matches_query(&apps[k], needle.as_str()) {
            r.push(k);
            proof {
                pos = pos.push(j as int);
                assert forall|c: int| 0 <= c < j + 1 && app_matches(apps@[order@[c] as int], needle@) implies #[trigger] r@.contains(order@[c]) by {
                    if c == j {
                        assert(r@[r@.len() - 1] == order@[c]);
                    } else {
                        assert(r0.contains(order@[c]));
                        let a = choose|a: int| 0 <= a < r0.len() && r0[a] == order@[c];
                        assert(r@[a] == order@[c]);
                    }
                }
            }
        } else {
            proof {
                assert forall|c: int| 0 <= c < j + 1 && app_matches(apps@[order@[c] as int], needle@) implies #[trigger] r@.contains(order@[c]) by {
                    if c < j {
                    }
                }
            }
        }
        j = j + 1;
    }
    proof {
        assert forall|k: usize| k < apps@.len() && app_matches(apps@[k as int], query_needle(query@)) implies #[trigger] r@.contains(k) by {
            assert(order@.contains(k));
            let c = choose|c: int| 0 <= c < order@.len() && order@[c] == k;
            assert(app_matches(apps@[order@[c] as int], needle@));
        }
        assert forall|a: int, b: int| 0 <= a < b < r@.len() implies (#[trigger] r@[a]) != (#[trigger] r@[b]) by {
            assert(pos[a] < pos[b]);
        }
        assert forall|a: int, b: int| 0 <= a < b < r@.len() implies lex_le(list_key(apps@[(#[trigger] r@[a]) as int]), list_key(apps@[(#[trigger] r@[b]) as int])) by {
            assert(pos[a] < pos[b]);
            assert(lex_le(kv[order@[pos[a]] as int], kv[order@[pos[b]] as int]));
        }
        assert forall|a: int, b: int| 0 <= a < b < r@.len() && list_key(apps@[(#[trigger] r@[a]) as int]) == list_key(apps@[(#[trigger] r@[b]) as int]) implies r@[a] < r@[b] by {
            assert(pos[a] < pos[b]);
            assert(kv[order@[pos[a]] as int] == kv[order@[pos[b]] as int]);
        }
    }
    r
}

} // verus!
