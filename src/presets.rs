use vstd::prelude::*;
use crate::config::{default_view, CrosshairConfig};

verus! {

/// A named snapshot of a configuration.
#[derive(Debug, PartialEq, Eq)]
pub struct CrosshairPreset {
    pub id: String,
    pub name: String,
    pub config: CrosshairConfig,
    pub created_at: String,
}

/// The presets of `s` whose id is not `id`, in their order.
pub open spec fn without_id(s: Seq<CrosshairPreset>, id: Seq<char>) -> Seq<CrosshairPreset>
    decreases s.len(),
{
    if s.len() == 0 {
        s
    } else {
        let rest = without_id(s.drop_last(), id);
        if s.last().id@ == id {
            rest
        } else {
            rest.push(s.last())
        }
    }
}

/// No preset of `s` has id `id`.
pub open spec fn no_id(s: Seq<CrosshairPreset>, id: Seq<char>) -> bool {
    forall|j: int| 0 <= j < s.len() ==> (#[trigger] s[j]).id@ != id
}

/// `i` is the index of the first preset of `s` with id `id`.
pub open spec fn first_with_id(s: Seq<CrosshairPreset>, id: Seq<char>, i: int) -> bool {
    &&& 0 <= i < s.len()
    &&& s[i].id@ == id
    &&& no_id(s.subrange(0, i), id)
}

/// `s` with `p` saved. When a preset with the same id is there, the first one is
/// replaced by `p` where it stands and any later one with that id is dropped;
/// otherwise `p` is appended.
pub open spec fn upsert(s: Seq<CrosshairPreset>, p: CrosshairPreset) -> Seq<CrosshairPreset> {
    if no_id(s, p.id@) {
        s.push(p)
    } else {
        let i = choose|i: int| first_with_id(s, p.id@, i);
        s.subrange(0, i).push(p) + without_id(s.subrange(i + 1, s.len() as int), p.id@)
    }
}

/// How many presets of `s` have id `id`.
pub open spec fn count_id(s: Seq<CrosshairPreset>, id: Seq<char>) -> nat
    decreases s.len(),
{
    if s.len() == 0 {
        0
    } else {
        count_id(s.drop_last(), id) + if s.last().id@ == id {
            1nat
        } else {
            0nat
        }
    }
}

/// Removes, in place, every preset from index `start` on whose id is `id`, keeping the
/// order of the others.
fn remove_id_from(presets: &mut Vec<CrosshairPreset>, start: usize, id: &String)
    requires
        start <= old(presets)@.len(),
    ensures
        final(presets)@ == old(presets)@.subrange(0, start as int) + without_id(
            old(presets)@.subrange(start as int, old(presets)@.len() as int),
            id@,
        ),
{
    let ghost orig = presets@;
    let ghost s = start as int;
    let ghost mut k: int = s;
    let mut i: usize = start;
    while i < presets.len()
        invariant
            s == start,
            0 <= s <= k <= orig.len(),
            presets@.len() == i + orig.len() - k,
            i == s + without_id(orig.subrange(s, k), id@).len(),
            presets@ =~= orig.subrange(0, s) + without_id(orig.subrange(s, k), id@) + orig.subrange(
                k,
                orig.len() as int,
            ),
        decreases presets.len() - i,
    {
        assert(orig.subrange(s, k + 1).drop_last() =~= orig.subrange(s, k));
        assert(orig.subrange(s, k + 1).last() == orig[k]);
        assert(presets@[i as int] == orig[k]);
        if presets[i].id == *id {
            presets.remove(i);
        } else {
            i = i + 1;
        }
        proof {
            k = k + 1;
        }
    }
    assert(orig.subrange(s, k) =~= orig.subrange(s, orig.len() as int));
}

/// Saves `preset`. A preset with the same id is replaced where it stands (the first
/// one, when several share the id; the others are dropped); a new id is appended.
pub fn save_preset(presets: &mut Vec<CrosshairPreset>, preset: CrosshairPreset)
    ensures
        final(presets)@ == upsert(old(presets)@, preset),
{
    let ghost orig = presets@;
    let ghost id = preset.id@;
    let mut i: usize = 0;
    let mut found = false;
    while !found && i < presets.len()
        invariant
            presets@ == orig,
            i <= orig.len(),
            no_id(orig.subrange(0, i as int), id),
            found ==> i < orig.len() && orig[i as int].id@ == id,
            id == preset.id@,
        decreases orig.len() - i + if found {
            0int
        } else {
            1int
        },
    {
        if presets[i].id == preset.id {
            found = true;
        } else {
            assert(orig.subrange(0, i + 1) =~= orig.subrange(0, i as int).push(orig[i as int]));
            i = i + 1;
        }
    }
    if !found {
        assert(orig.subrange(0, i as int) =~= orig);
        presets.push(preset);
    } else {
        proof {
            assert(first_with_id(orig, id, i as int));
            lemma_first_with_id_unique(orig, id, i as int);
        }
        assert(i < presets.len());
        remove_id_from(presets, i + 1, &preset.id);
        presets[i] = preset;
        assert(presets@ =~= upsert(orig, preset));
    }
}

/// Deletes every preset with id `id`; an id that is not there leaves the list as it was.
pub fn delete_preset(presets: &mut Vec<CrosshairPreset>, id: &String)
    ensures
        final(presets)@ == without_id(old(presets)@, id@),
{
    let ghost orig = presets@;
    remove_id_from(presets, 0, id);
    assert(orig.subrange(0, orig.len() as int) =~= orig);
    assert(orig.subrange(0, 0) + without_id(orig, id@) =~= without_id(orig, id@));
}

/// The preset list to start from: the decoded list, or an empty one when the stored
/// list is missing or could not be decoded (`None`).
pub fn load_presets(stored: Option<Vec<CrosshairPreset>>) -> (r: Vec<CrosshairPreset>)
    ensures
        stored is Some ==> r@ == stored->Some_0@,
        stored is None ==> r@.len() == 0,
{
    match stored {
        Some(presets) => presets,
        None => Vec::new(),
    }
}

/// The configuration to start from: the decoded one when it lies within the accepted
/// bounds, the default one when it is missing, could not be decoded (`None`), or does not.
pub fn load_config(stored: Option<CrosshairConfig>) -> (r: CrosshairConfig)
    ensures
        stored is Some && stored->Some_0@.valid() ==> r@ == stored->Some_0@,
        !(stored is Some && stored->Some_0@.valid()) ==> r@ == default_view(),
        r@.valid(),
{
    match stored {
        Some(config) => {
            if config.is_valid() {
                config
            } else {
                CrosshairConfig::default()
            }
        },
        None => CrosshairConfig::default(),
    }
}


// ---- laws ----
proof fn lemma_first_with_id_unique(s: Seq<CrosshairPreset>, id: Seq<char>, i: int)
    requires
        first_with_id(s, id, i),
    ensures
        !no_id(s, id),
        forall|j: int| #[trigger] first_with_id(s, id, j) ==> j == i,
        (choose|j: int| first_with_id(s, id, j)) == i,
{
    assert(s[i].id@ == id);
    assert forall|j: int| #[trigger] first_with_id(s, id, j) implies j == i by {
        if j < i {
            assert(s.subrange(0, i)[j] == s[j]);
        } else if i < j {
            assert(s.subrange(0, j)[i] == s[i]);
        }
    }
}

proof fn lemma_first_exists(s: Seq<CrosshairPreset>, id: Seq<char>)
    requires
        !no_id(s, id),
    ensures
        exists|i: int| first_with_id(s, id, i),
    decreases s.len(),
{
    let j = choose|j: int| 0 <= j < s.len() && (#[trigger] s[j]).id@ == id;
    if no_id(s.subrange(0, j), id) {
        assert(first_with_id(s, id, j));
    } else {
        lemma_first_exists(s.subrange(0, j), id);
        let i = choose|i: int| first_with_id(s.subrange(0, j), id, i);
        assert(s.subrange(0, j).subrange(0, i) =~= s.subrange(0, i));
        assert(s.subrange(0, j)[i] == s[i]);
        assert(first_with_id(s, id, i));
    }
}

proof fn lemma_no_id_drop_last(s: Seq<CrosshairPreset>, id: Seq<char>)
    requires
        no_id(s, id),
        s.len() > 0,
    ensures
        no_id(s.drop_last(), id),
        s.last().id@ != id,
{
    assert forall|j: int| 0 <= j < s.drop_last().len() implies (#[trigger] s.drop_last()[j]).id@ != id by {
        assert(s.drop_last()[j] == s[j]);
    }
    assert(s.last() == s[s.len() - 1]);
}

proof fn lemma_no_id_count(s: Seq<CrosshairPreset>, id: Seq<char>)
    requires
        no_id(s, id),
    ensures
        count_id(s, id) == 0,
    decreases s.len(),
{
    if s.len() > 0 {
        lemma_no_id_drop_last(s, id);
        lemma_no_id_count(s.drop_last(), id);
    }
}

proof fn lemma_count_concat(a: Seq<CrosshairPreset>, b: Seq<CrosshairPreset>, id: Seq<char>)
    ensures
        count_id(a + b, id) == count_id(a, id) + count_id(b, id),
    decreases b.len(),
{
    if b.len() == 0 {
        assert(a + b =~= a);
    } else {
        assert((a + b).drop_last() =~= a + b.drop_last());
        assert((a + b).last() == b.last());
        lemma_count_concat(a, b.drop_last(), id);
    }
}

proof fn lemma_without_id_drops_all(s: Seq<CrosshairPreset>, id: Seq<char>)
    ensures
        count_id(without_id(s, id), id) == 0,
    decreases s.len(),
{
    if s.len() > 0 {
        lemma_without_id_drops_all(s.drop_last(), id);
        let rest = without_id(s.drop_last(), id);
        if s.last().id@ != id {
            assert(rest.push(s.last()).drop_last() =~= rest);
        }
    }
}

proof fn lemma_without_id_keeps_absent(s: Seq<CrosshairPreset>, id: Seq<char>)
    requires
        no_id(s, id),
    ensures
        without_id(s, id) == s,
    decreases s.len(),
{
    if s.len() > 0 {
        lemma_no_id_drop_last(s, id);
        lemma_without_id_keeps_absent(s.drop_last(), id);
        assert(s.drop_last().push(s.last()) =~= s);
    }
}

proof fn lemma_without_id_twice(s: Seq<CrosshairPreset>, id: Seq<char>)
    ensures
        without_id(without_id(s, id), id) == without_id(s, id),
    decreases s.len(),
{
    if s.len() > 0 {
        lemma_without_id_twice(s.drop_last(), id);
        let rest = without_id(s.drop_last(), id);
        if s.last().id@ != id {
            assert(rest.push(s.last()).drop_last() =~= rest);
        }
    }
}

/// With a single preset of that id, at index `i`, saving replaces that entry where it
/// stands and leaves every other entry, and the length, as they were.
pub proof fn lemma_upsert_replaces_in_place(s: Seq<CrosshairPreset>, p: CrosshairPreset, i: int)
    requires
        0 <= i < s.len(),
        s[i].id@ == p.id@,
        forall|j: int| 0 <= j < s.len() && j != i ==> (#[trigger] s[j]).id@ != p.id@,
    ensures
        upsert(s, p) == s.update(i, p),
{
    let id = p.id@;
    assert forall|j: int| 0 <= j < s.subrange(0, i).len() implies (#[trigger] s.subrange(0, i)[j]).id@ != id by {
        assert(s.subrange(0, i)[j] == s[j]);
    }
    assert(first_with_id(s, id, i));
    lemma_first_with_id_unique(s, id, i);
    let rest = s.subrange(i + 1, s.len() as int);
    assert forall|j: int| 0 <= j < rest.len() implies (#[trigger] rest[j]).id@ != id by {
        assert(rest[j] == s[i + 1 + j]);
    }
    lemma_without_id_keeps_absent(rest, id);
    assert(upsert(s, p) =~= s.update(i, p));
}

/// After a save, exactly one preset carries the saved id, and it is the one saved.
pub proof fn lemma_upsert_single_entry(s: Seq<CrosshairPreset>, p: CrosshairPreset)
    ensures
        count_id(upsert(s, p), p.id@) == 1,
        upsert(s, p).contains(p),
{
    let id = p.id@;
    if no_id(s, id) {
        lemma_no_id_count(s, id);
        assert(s.push(p).drop_last() =~= s);
        assert(s.push(p)[s.len() as int] == p);
    } else {
        lemma_first_exists(s, id);
        let i = choose|i: int| first_with_id(s, id, i);
        let pre = s.subrange(0, i);
        let post = without_id(s.subrange(i + 1, s.len() as int), id);
        lemma_no_id_count(pre, id);
        assert(pre.push(p).drop_last() =~= pre);
        lemma_without_id_drops_all(s.subrange(i + 1, s.len() as int), id);
        lemma_count_concat(pre.push(p), post, id);
        assert((pre.push(p) + post)[i] == p);
    }
}

/// Saving `a` and then `b` under the same id leaves the list as saving `b` alone would:
/// one entry with that id, holding `b`.
pub proof fn lemma_upsert_twice(s: Seq<CrosshairPreset>, a: CrosshairPreset, b: CrosshairPreset)
    requires
        a.id@ == b.id@,
    ensures
        upsert(upsert(s, a), b) == upsert(s, b),
        count_id(upsert(upsert(s, a), b), b.id@) == 1,
        upsert(upsert(s, a), b).contains(b),
{
    let id = a.id@;
    let t = upsert(s, a);
    if no_id(s, id) {
        assert(t.subrange(0, s.len() as int) =~= s);
        assert(first_with_id(t, id, s.len() as int));
        lemma_first_with_id_unique(t, id, s.len() as int);
        assert(t.subrange(s.len() as int + 1, t.len() as int) =~= Seq::<CrosshairPreset>::empty());
        assert(upsert(t, b) =~= upsert(s, b));
    } else {
        lemma_first_exists(s, id);
        let i = choose|i: int| first_with_id(s, id, i);
        let post = without_id(s.subrange(i + 1, s.len() as int), id);
        assert(t =~= s.subrange(0, i).push(a) + post);
        assert(t.subrange(0, i) =~= s.subrange(0, i));
        assert(t[i] == a);
        assert(first_with_id(t, id, i));
        lemma_first_with_id_unique(t, id, i);
        assert(t.subrange(i + 1, t.len() as int) =~= post);
        lemma_without_id_twice(s.subrange(i + 1, s.len() as int), id);
        assert(upsert(t, b) =~= upsert(s, b));
    }
    lemma_upsert_single_entry(s, b);
}

/// Deleting an id that no preset carries leaves the list unchanged.
pub proof fn lemma_delete_absent_is_noop(s: Seq<CrosshairPreset>, id: Seq<char>)
    requires
        no_id(s, id),
    ensures
        without_id(s, id) == s,
{
    lemma_without_id_keeps_absent(s, id);
}

} // verus!
