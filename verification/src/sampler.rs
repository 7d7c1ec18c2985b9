//! The process sampler's policy: from the raw names that one enumeration of the
//! host's processes gave, keep each name once, in the order of first sighting,
//! and drop every name of the ignore list.
use vstd::prelude::*;

verus! {

/// The names of `raw` that are not in `ignore`, each once, ordered by first
/// appearance in `raw`.
pub open spec fn distinct_unignored(raw: Seq<Seq<char>>, ignore: Set<Seq<char>>) -> Seq<Seq<char>>
    decreases raw.len(),
{
    if raw.len() == 0 {
        Seq::empty()
    } else {
        let earlier = distinct_unignored(raw.drop_last(), ignore);
        let name = raw.last();
        if earlier.contains(name) || ignore.contains(name) {
            earlier
        } else {
            earlier.push(name)
        }
    }
}

/// The names of `raw` that occur in `wanted`, in the order and with the
/// multiplicity that they have in `raw`.
pub open spec fn listed_only(raw: Seq<Seq<char>>, wanted: Set<Seq<char>>) -> Seq<Seq<char>> {
    raw.filter(|name: Seq<char>| wanted.contains(name))
}

/// Whether both names occur in `raw` and the first place of `a` comes before
/// the first place of `b`.
pub open spec fn first_seen_before(raw: Seq<Seq<char>>, a: Seq<char>, b: Seq<char>) -> bool {
    &&& raw.index_of_first(a) is Some
    &&& raw.index_of_first(b) is Some
    &&& raw.index_of_first(a)->0 < raw.index_of_first(b)->0
}

/// Whether `name` is one of `list`.
pub fn contains_name(list: &Vec<String>, name: &String) -> (found: bool)
    ensures
        found == list.deep_view().contains(name@),
{
    let mut i: usize = 0;
    while i < list.len()
        invariant
            i <= list.len(),
            forall|j: int| 0 <= j < i ==> list.deep_view()[j] != name@,
        decreases list.len() - i,
    {
        if list[i] == *name {
            assert(list.deep_view()[i as int] == name@);
            return true;
        }
        i += 1;
    }
    false
}

/// The sampler's result for one tick: `raw` holds the process names in the
/// order in which the host's enumeration gave them, `apps_to_ignore` the ignore
/// list. A name is kept iff it was not kept before and is not ignored.
pub fn list_all_unique_running_apps(raw: &Vec<String>, apps_to_ignore: &Vec<String>) -> (running_apps:
    Vec<String>)
    ensures
        running_apps.deep_view() == distinct_unignored(
            raw.deep_view(),
            apps_to_ignore.deep_view().to_set(),
        ),
{
    let mut running_apps: Vec<String> = Vec::new();
    let mut i: usize = 0;
    assert(raw.deep_view().take(0) =~= Seq::<Seq<char>>::empty());
    assert(running_apps.deep_view() =~= Seq::<Seq<char>>::empty());
    while i < raw.len()
        invariant
            i <= raw.len(),
            running_apps.deep_view() == distinct_unignored(
                raw.deep_view().take(i as int),
                apps_to_ignore.deep_view().to_set(),
            ),
        decreases raw.len() - i,
    {
        let ghost before = running_apps.deep_view();
        let ghost seen = raw.deep_view().take(i as int + 1);
        assert(seen.drop_last() =~= raw.deep_view().take(i as int));
        assert(seen.last() == raw[i as int]@);
        let name = &raw[i];
        if !contains_name(&running_apps, name) && !contains_name(apps_to_ignore, name) {
            running_apps.push(name.clone());
            assert(running_apps.deep_view() =~= before.push(name@));
        }
        i += 1;
    }
    assert(raw.deep_view().take(raw.len() as int) =~= raw.deep_view());
    running_apps
}

/// The raw names that are among `apps`, as often and in the order in which the
/// enumeration gave them.
pub fn check_for_specific_apps(raw: &Vec<String>, apps: &Vec<String>) -> (running_apps: Vec<String>)
    ensures
        running_apps.deep_view() == listed_only(raw.deep_view(), apps.deep_view().to_set()),
{
    let mut running_apps: Vec<String> = Vec::new();
    let mut i: usize = 0;
    let ghost wanted = apps.deep_view().to_set();
    let ghost pred = |name: Seq<char>| wanted.contains(name);
    assert(raw.deep_view().take(0) =~= Seq::<Seq<char>>::empty());
    assert(running_apps.deep_view() =~= Seq::<Seq<char>>::empty());
    proof {
        reveal(Seq::filter);
    }
    while i < raw.len()
        invariant
            i <= raw.len(),
            wanted == apps.deep_view().to_set(),
            pred == (|name: Seq<char>| wanted.contains(name)),
            running_apps.deep_view() == raw.deep_view().take(i as int).filter(pred),
        decreases raw.len() - i,
    {
        let ghost before = running_apps.deep_view();
        let ghost seen = raw.deep_view().take(i as int);
        assert(raw.deep_view().take(i as int + 1) =~= seen.push(raw[i as int]@));
        proof {
            seen.lemma_filter_push(raw[i as int]@, pred);
        }
        let name = &raw[i];
        if contains_name(apps, name) {
            running_apps.push(name.clone());
            assert(running_apps.deep_view() =~= before.push(name@));
        }
        i += 1;
    }
    assert(raw.deep_view().take(raw.len() as int) =~= raw.deep_view());
    running_apps
}

/// A name is kept iff the enumeration gave it and the ignore list does not hold
/// it: nothing ignored is kept, nothing is invented, nothing wanted is lost.
pub proof fn lemma_kept_iff_seen_and_unignored(raw: Seq<Seq<char>>, ignore: Set<Seq<char>>)
    ensures
        forall|name: Seq<char>| #[trigger]
            distinct_unignored(raw, ignore).contains(name) <==> raw.contains(name)
                && !ignore.contains(name),
    decreases raw.len(),
{
    let kept = distinct_unignored(raw, ignore);
    if raw.len() > 0 {
        let shorter = raw.drop_last();
        let earlier = distinct_unignored(shorter, ignore);
        lemma_kept_iff_seen_and_unignored(shorter, ignore);
        assert forall|name: Seq<char>| #[trigger]
            kept.contains(name) <==> raw.contains(name) && !ignore.contains(name) by {
            if kept.contains(name) {
                let k = choose|k: int| 0 <= k < kept.len() && kept[k] == name;
                if k < earlier.len() {
                    assert(earlier[k] == name);
                    assert(earlier.contains(name));
                    let i = choose|i: int| 0 <= i < shorter.len() && shorter[i] == name;
                    assert(raw[i] == name);
                } else {
                    assert(raw[raw.len() - 1] == name);
                }
            }
            if raw.contains(name) && !ignore.contains(name) {
                let i = choose|i: int| 0 <= i < raw.len() && raw[i] == name;
                if i < shorter.len() {
                    assert(shorter[i] == name);
                    assert(shorter.contains(name));
                    assert(earlier.contains(name));
                    let k = choose|k: int| 0 <= k < earlier.len() && earlier[k] == name;
                    assert(kept[k] == name);
                } else if earlier.contains(name) {
                    let k = choose|k: int| 0 <= k < earlier.len() && earlier[k] == name;
                    assert(kept[k] == name);
                } else {
                    assert(kept[kept.len() - 1] == name);
                }
            }
        }
    }
}

/// No name is kept twice, and no more names are kept than were given.
pub proof fn lemma_kept_once(raw: Seq<Seq<char>>, ignore: Set<Seq<char>>)
    ensures
        distinct_unignored(raw, ignore).no_duplicates(),
        distinct_unignored(raw, ignore).len() <= raw.len(),
    decreases raw.len(),
{
    if raw.len() > 0 {
        lemma_kept_once(raw.drop_last(), ignore);
    }
}

/// The sampler's guarantee in one statement: the result holds no ignored name,
/// holds no name twice, and holds only names that the enumeration gave.
pub proof fn lemma_sample_is_sound(raw: Seq<Seq<char>>, ignore: Set<Seq<char>>)
    ensures
        forall|k: int|
            0 <= k < distinct_unignored(raw, ignore).len() ==> !ignore.contains(
                #[trigger] distinct_unignored(raw, ignore)[k],
            ),
        distinct_unignored(raw, ignore).no_duplicates(),
        forall|k: int|
            0 <= k < distinct_unignored(raw, ignore).len() ==> raw.contains(
                #[trigger] distinct_unignored(raw, ignore)[k],
            ),
{
    let kept = distinct_unignored(raw, ignore);
    lemma_kept_iff_seen_and_unignored(raw, ignore);
    lemma_kept_once(raw, ignore);
    assert forall|k: int| 0 <= k < kept.len() implies !ignore.contains(#[trigger] kept[k])
        && raw.contains(kept[k]) by {
        assert(kept.contains(kept[k]));
    }
}

/// Where a name occurs in all but the last place of `raw`, its first place in
/// `raw` is its first place there.
proof fn lemma_first_place_in_prefix(raw: Seq<Seq<char>>, name: Seq<char>)
    requires
        raw.len() > 0,
        raw.drop_last().contains(name),
    ensures
        raw.index_of_first(name) == raw.drop_last().index_of_first(name),
{
    let shorter = raw.drop_last();
    shorter.index_of_first_ensures(name);
    raw.index_of_first_ensures(name);
    let a = shorter.index_of_first(name)->0;
    assert(raw[a] == name);
    assert(raw.contains(name));
    let b = raw.index_of_first(name)->0;
    if b < a {
        assert(shorter[b] == name);
    }
    if a < b {
        assert(raw[a] == name);
    }
}

/// The kept names stand in the order of their first sighting: of two kept
/// names, the one kept earlier was first seen earlier in `raw`.
pub proof fn lemma_kept_in_order_of_first_sighting(raw: Seq<Seq<char>>, ignore: Set<Seq<char>>)
    ensures
        forall|j: int, k: int|
            0 <= j < k < distinct_unignored(raw, ignore).len() ==> first_seen_before(
                raw,
                #[trigger] distinct_unignored(raw, ignore)[j],
                #[trigger] distinct_unignored(raw, ignore)[k],
            ),
    decreases raw.len(),
{
    let kept = distinct_unignored(raw, ignore);
    if raw.len() > 0 {
        let shorter = raw.drop_last();
        let earlier = distinct_unignored(shorter, ignore);
        lemma_kept_in_order_of_first_sighting(shorter, ignore);
        lemma_kept_iff_seen_and_unignored(shorter, ignore);
        assert forall|j: int, k: int| 0 <= j < k < kept.len() implies first_seen_before(
            raw,
            #[trigger] kept[j],
            #[trigger] kept[k],
        ) by {
            assert(earlier[j] == kept[j]);
            assert(earlier.contains(kept[j]));
            lemma_first_place_in_prefix(raw, kept[j]);
            shorter.index_of_first_ensures(kept[j]);
            if k < earlier.len() {
                assert(earlier[k] == kept[k]);
                assert(earlier.contains(kept[k]));
                lemma_first_place_in_prefix(raw, kept[k]);
            } else {
                let name = raw.last();
                assert(kept[k] == name);
                assert(!shorter.contains(name));
                raw.index_of_first_ensures(name);
                assert(raw[raw.len() - 1] == name);
                assert(raw.contains(name));
                let b = raw.index_of_first(name)->0;
                if b < raw.len() - 1 {
                    assert(shorter[b] == name);
                }
            }
        }
    }
}

/// Two lists that hold the same names, each name once, both in the order of
/// first sighting in `raw`, agree in their first `n` places.
proof fn lemma_prefixes_agree(raw: Seq<Seq<char>>, a: Seq<Seq<char>>, b: Seq<Seq<char>>, n: int)
    requires
        a.no_duplicates(),
        b.no_duplicates(),
        forall|name: Seq<char>| a.contains(name) <==> b.contains(name),
        forall|j: int, k: int|
            0 <= j < k < a.len() ==> first_seen_before(raw, #[trigger] a[j], #[trigger] a[k]),
        forall|j: int, k: int|
            0 <= j < k < b.len() ==> first_seen_before(raw, #[trigger] b[j], #[trigger] b[k]),
        0 <= n <= a.len(),
        n <= b.len(),
    ensures
        forall|i: int| 0 <= i < n ==> a[i] == b[i],
    decreases n,
{
    if n > 0 {
        lemma_prefixes_agree(raw, a, b, n - 1);
        let i = n - 1;
        if a[i] != b[i] {
            assert(a.contains(a[i]));
            assert(b.contains(a[i]));
            let j = choose|j: int| 0 <= j < b.len() && b[j] == a[i];
            if j < i {
                assert(a[j] == b[j]);
                assert(false);
            }
            assert(first_seen_before(raw, b[i], b[j]));
            assert(b.contains(b[i]));
            assert(a.contains(b[i]));
            let k = choose|k: int| 0 <= k < a.len() && a[k] == b[i];
            if k < i {
                assert(a[k] == b[k]);
                assert(false);
            }
            assert(first_seen_before(raw, a[i], a[k]));
            assert(false);
        }
    }
}

/// The three properties of the sampler's result leave room for one list only:
/// a list that holds exactly the seen names that are not ignored, holds each
/// once, and holds them in the order of first sighting, is the result.
pub proof fn lemma_sample_is_determined(
    raw: Seq<Seq<char>>,
    ignore: Set<Seq<char>>,
    kept: Seq<Seq<char>>,
)
    requires
        kept.no_duplicates(),
        forall|name: Seq<char>| #[trigger]
            kept.contains(name) <==> raw.contains(name) && !ignore.contains(name),
        forall|j: int, k: int|
            0 <= j < k < kept.len() ==> first_seen_before(
                raw,
                #[trigger] kept[j],
                #[trigger] kept[k],
            ),
    ensures
        kept == distinct_unignored(raw, ignore),
{
    let result = distinct_unignored(raw, ignore);
    lemma_kept_iff_seen_and_unignored(raw, ignore);
    lemma_kept_once(raw, ignore);
    lemma_kept_in_order_of_first_sighting(raw, ignore);
    assert forall|name: Seq<char>| kept.contains(name) <==> result.contains(name) by {}
    if kept.len() <= result.len() {
        lemma_prefixes_agree(raw, kept, result, kept.len() as int);
        if kept.len() < result.len() {
            let extra = result[kept.len() as int];
            assert(result.contains(extra));
            assert(kept.contains(extra));
            let j = choose|j: int| 0 <= j < kept.len() && kept[j] == extra;
            assert(result[j] == extra);
            assert(false);
        }
    } else {
        lemma_prefixes_agree(raw, kept, result, result.len() as int);
        let extra = kept[result.len() as int];
        assert(kept.contains(extra));
        assert(result.contains(extra));
        let j = choose|j: int| 0 <= j < result.len() && result[j] == extra;
        assert(kept[j] == extra);
        assert(false);
    }
    assert(kept =~= result);
}

} // verus!
