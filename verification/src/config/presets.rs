//! The list of saved static clicker presets.

use vstd::prelude::*;

use crate::model::{PresetView, StaticClickerPreset};
use crate::text;

verus! {

/// The presets of a list, as mathematical values.
pub open spec fn preset_views(list: Seq<StaticClickerPreset>) -> Seq<PresetView> {
    list.map_values(|p: StaticClickerPreset| p@)
}

/// The names of the presets, in order.
pub open spec fn names_of(list: Seq<PresetView>) -> Seq<Seq<char>> {
    list.map_values(|p: PresetView| p.name)
}

/// The first preset of that name.
pub open spec fn found(list: Seq<PresetView>, name: Seq<char>) -> Option<PresetView>
    decreases list.len(),
{
    if list.len() == 0 {
        None
    } else if list[0].name == name {
        Some(list[0])
    } else {
        found(list.drop_first(), name)
    }
}

/// The list with a preset put in the place of the first of its name, or at the end where
/// there is none.
pub open spec fn with_preset(list: Seq<PresetView>, p: PresetView) -> Seq<PresetView>
    decreases list.len(),
{
    if list.len() == 0 {
        seq![p]
    } else if list[0].name == p.name {
        list.update(0, p)
    } else {
        seq![list[0]] + with_preset(list.drop_first(), p)
    }
}

/// The list without the presets of that name.
pub open spec fn without_preset(list: Seq<PresetView>, name: Seq<char>) -> Seq<PresetView> {
    list.filter(|p: PresetView| p.name != name)
}

/// The place of the first preset of that name.
pub fn preset_position(list: &Vec<StaticClickerPreset>, name: &str) -> (r: Option<usize>)
    ensures
        match r {
            Some(i) => {
                &&& i < list.len()
                &&& list@[i as int]@.name == name@
                &&& forall|j: int| 0 <= j < i ==> (#[trigger] list@[j])@.name != name@
            },
            None => forall|j: int| 0 <= j < list.len() ==> (#[trigger] list@[j])@.name != name@,
        },
{
    let mut i: usize = 0;
    while i < list.len()
        invariant
            i <= list.len(),
            forall|j: int| 0 <= j < i ==> (#[trigger] list@[j])@.name != name@,
        decreases list.len() - i,
    {
        if text::same_text(list[i].name.as_str(), name) {
            return Some(i);
        }
        i = i + 1;
    }
    None
}

proof fn lemma_skip(list: Seq<PresetView>, name: Seq<char>, i: int)
    requires
        0 <= i <= list.len(),
        forall|j: int| 0 <= j < i ==> (#[trigger] list[j]).name != name,
    ensures
        found(list, name) == found(list.skip(i), name),
        forall|p: PresetView| #[trigger]
            p.name == name ==> #[trigger] with_preset(list, p) == list.take(i) + with_preset(
                list.skip(i),
                p,
            ),
    decreases i,
{
    if i == 0 {
        assert(list.skip(0) =~= list);
        assert forall|p: PresetView| #[trigger] p.name == name implies #[trigger] with_preset(
            list,
            p,
        ) == list.take(0) + with_preset(list.skip(0), p) by {
            assert(list.take(0) + with_preset(list.skip(0), p) =~= with_preset(list, p));
        }
    } else {
        let rest = list.drop_first();
        assert(list[0].name != name);
        assert forall|j: int| 0 <= j < i - 1 implies (#[trigger] rest[j]).name != name by {
            assert(rest[j] == list[j + 1]);
        }
        lemma_skip(rest, name, i - 1);
        assert(rest.skip(i - 1) =~= list.skip(i));
        assert forall|p: PresetView| #[trigger] p.name == name implies #[trigger] with_preset(
            list,
            p,
        ) == list.take(i) + with_preset(list.skip(i), p) by {
            assert(with_preset(rest, p) == rest.take(i - 1) + with_preset(rest.skip(i - 1), p));
            assert(with_preset(list, p) =~= list.take(i) + with_preset(list.skip(i), p));
        }
    }
}

/// Whether a preset of that name is in the list.
pub fn preset_exists(list: &Vec<StaticClickerPreset>, name: &str) -> (r: bool)
    ensures
        r == found(preset_views(list@), name@).is_some(),
{
    match preset_position(list, name) {
        Some(i) => {
            proof {
                lemma_skip(preset_views(list@), name@, i as int);
            }
            true
        },
        None => {
            proof {
                lemma_skip(preset_views(list@), name@, list.len() as int);
            }
            false
        },
    }
}

/// A copy of the first preset of that name.
pub fn find_preset(list: &Vec<StaticClickerPreset>, name: &str) -> (r: Option<StaticClickerPreset>)
    ensures
        match r {
            Some(p) => found(preset_views(list@), name@) == Some(p@),
            None => found(preset_views(list@), name@) is None,
        },
{
    match preset_position(list, name) {
        Some(i) => {
            proof {
                lemma_skip(preset_views(list@), name@, i as int);
            }
            Some(list[i].clone())
        },
        None => {
            proof {
                lemma_skip(preset_views(list@), name@, list.len() as int);
            }
            None
        },
    }
}

/// Saves a preset under its name.
pub fn put_preset(list: &mut Vec<StaticClickerPreset>, preset: StaticClickerPreset)
    ensures
        preset_views(final(list)@) == with_preset(preset_views(old(list)@), preset@),
{
    let ghost before = preset_views(list@);
    let ghost p = preset@;
    match preset_position(list, preset.name.as_str()) {
        Some(i) => {
            proof {
                lemma_skip(before, p.name, i as int);
                assert(with_preset(before, p) == before.take(i as int) + with_preset(
                    before.skip(i as int),
                    p,
                ));
            }
            list.set(i, preset);
            proof {
                assert(preset_views(list@) =~= before.take(i as int) + before.skip(i as int).update(
                    0,
                    p,
                ));
            }
        },
        None => {
            proof {
                lemma_skip(before, p.name, before.len() as int);
                assert(before.skip(before.len() as int).len() == 0);
                assert(with_preset(before, p) == before.take(before.len() as int) + with_preset(
                    before.skip(before.len() as int),
                    p,
                ));
            }
            list.push(preset);
            proof {
                assert(preset_views(list@) =~= before.take(before.len() as int) + seq![p]);
            }
        },
    }
}

/// Removes the presets of that name.
pub fn remove_preset(list: &mut Vec<StaticClickerPreset>, name: &str)
    ensures
        preset_views(final(list)@) == without_preset(preset_views(old(list)@), name@),
{
    let ghost before = preset_views(list@);
    let ghost keep = |p: PresetView| p.name != name@;
    let mut kept: Vec<StaticClickerPreset> = Vec::new();
    let mut i: usize = 0;
    proof {
        assert(before.take(0).filter(keep) =~= Seq::<PresetView>::empty()) by {
            reveal(Seq::filter);
        }
        assert(preset_views(kept@) =~= Seq::<PresetView>::empty());
    }
    while i < list.len()
        invariant
            i <= list.len(),
            before == preset_views(list@),
            keep == (|p: PresetView| p.name != name@),
            preset_views(kept@) == before.take(i as int).filter(keep),
        decreases list.len() - i,
    {
        let ghost kept_before = preset_views(kept@);
        proof {
            reveal(Seq::filter);
            assert(before.take(i + 1).drop_last() =~= before.take(i as int));
            assert(before.take(i + 1).last() == list@[i as int]@);
        }
        if !text::same_text(list[i].name.as_str(), name) {
            kept.push(list[i].clone());
            proof {
                assert(preset_views(kept@) =~= kept_before.push(list@[i as int]@));
            }
        }
        i = i + 1;
    }
    proof {
        assert(before.take(i as int) =~= before);
    }
    *list = kept;
}

/// The names of the presets, in order.
pub fn preset_names(list: &Vec<StaticClickerPreset>) -> (r: Vec<String>)
    ensures
        text::views(r@) == names_of(preset_views(list@)),
{
    let mut out: Vec<String> = Vec::new();
    let mut i: usize = 0;
    while i < list.len()
        invariant
            i <= list.len(),
            out.len() == i,
            forall|j: int| 0 <= j < i ==> (#[trigger] out@[j])@ == list@[j]@.name,
        decreases list.len() - i,
    {
        out.push(list[i].name.clone());
        i = i + 1;
    }
    proof {
        assert(text::views(out@) =~= names_of(preset_views(list@)));
    }
    out
}

/// A preset that was saved is found under its name, as it was saved.
pub proof fn law_saved_preset_is_found(list: Seq<PresetView>, p: PresetView)
    ensures
        found(with_preset(list, p), p.name) == Some(p),
    decreases list.len(),
{
    if list.len() > 0 && list[0].name != p.name {
        law_saved_preset_is_found(list.drop_first(), p);
        assert(with_preset(list, p).drop_first() =~= with_preset(list.drop_first(), p));
    }
}

/// Saving a preset leaves the presets of every other name as they are.
pub proof fn law_saving_keeps_other_presets(list: Seq<PresetView>, p: PresetView, name: Seq<char>)
    requires
        name != p.name,
    ensures
        found(with_preset(list, p), name) == found(list, name),
    decreases list.len(),
{
    if list.len() == 0 {
        assert(with_preset(list, p).drop_first() =~= Seq::<PresetView>::empty());
        assert(found(Seq::<PresetView>::empty(), name) is None);
    } else if list[0].name == p.name {
        assert(with_preset(list, p).drop_first() =~= list.drop_first());
    } else {
        law_saving_keeps_other_presets(list.drop_first(), p, name);
        assert(with_preset(list, p).drop_first() =~= with_preset(list.drop_first(), p));
    }
}

/// A list without two presets of one name stays such a list when a preset is saved.
pub proof fn law_names_stay_distinct(list: Seq<PresetView>, p: PresetView)
    requires
        names_of(list).no_duplicates(),
    ensures
        names_of(with_preset(list, p)).no_duplicates(),
        names_of(with_preset(list, p)).to_set() == names_of(list).to_set().insert(p.name),
    decreases list.len(),
{
    let after = with_preset(list, p);
    if list.len() == 0 {
        assert(names_of(after) =~= seq![p.name]);
        assert(names_of(after).to_set() =~= names_of(list).to_set().insert(p.name)) by {
            assert(names_of(after)[0] == p.name);
        }
    } else if list[0].name == p.name {
        assert(names_of(after) =~= names_of(list));
        assert(names_of(list)[0] == p.name);
        assert(names_of(list).to_set() =~= names_of(list).to_set().insert(p.name));
    } else {
        let rest = list.drop_first();
        assert(names_of(rest) =~= names_of(list).drop_first());
        assert forall|i: int, j: int|
            0 <= i < names_of(rest).len() && 0 <= j < names_of(rest).len() && i != j implies #[trigger] names_of(
            rest,
        )[i] != #[trigger] names_of(rest)[j] by {
            assert(names_of(list)[i + 1] != names_of(list)[j + 1]);
        }
        law_names_stay_distinct(rest, p);
        let rest_after = with_preset(rest, p);
        assert(names_of(after) =~= seq![list[0].name] + names_of(rest_after));
        assert(!names_of(rest).contains(list[0].name)) by {
            assert forall|i: int| 0 <= i < names_of(rest).len() implies names_of(rest)[i]
                != list[0].name by {
                assert(names_of(list)[i + 1] != names_of(list)[0]);
            }
        }
        assert(!names_of(rest_after).to_set().contains(list[0].name));
        assert(!names_of(rest_after).contains(list[0].name));
        assert forall|i: int, j: int|
            0 <= i < names_of(after).len() && 0 <= j < names_of(after).len() && i != j implies #[trigger] names_of(
            after,
        )[i] != #[trigger] names_of(after)[j] by {
            if i == 0 {
                assert(names_of(after)[j] == names_of(rest_after)[j - 1]);
            } else if j == 0 {
                assert(names_of(after)[i] == names_of(rest_after)[i - 1]);
            } else {
                assert(names_of(rest_after)[i - 1] != names_of(rest_after)[j - 1]);
            }
        }
        assert(names_of(list) =~= seq![list[0].name] + names_of(rest));
        assert forall|n: Seq<char>| #[trigger]
            names_of(after).to_set().contains(n) == names_of(list).to_set().insert(p.name).contains(n) by {
            assert(names_of(rest_after).to_set().contains(n) == names_of(rest).to_set().insert(
                p.name,
            ).contains(n));
            assert(names_of(after).contains(n) == (n == list[0].name || names_of(rest_after).contains(n)))
                by {
                if names_of(rest_after).contains(n) {
                    let k = choose|k: int|
                        0 <= k < names_of(rest_after).len() && names_of(rest_after)[k] == n;
                    assert(names_of(after)[k + 1] == n);
                }
                if n == list[0].name {
                    assert(names_of(after)[0] == n);
                }
                if names_of(after).contains(n) {
                    let k = choose|k: int| 0 <= k < names_of(after).len() && names_of(after)[k] == n;
                    if k > 0 {
                        assert(names_of(rest_after)[k - 1] == n);
                    }
                }
            }
            assert(names_of(list).contains(n) == (n == list[0].name || names_of(rest).contains(n))) by {
                if names_of(rest).contains(n) {
                    let k = choose|k: int| 0 <= k < names_of(rest).len() && names_of(rest)[k] == n;
                    assert(names_of(list)[k + 1] == n);
                }
                if n == list[0].name {
                    assert(names_of(list)[0] == n);
                }
                if names_of(list).contains(n) {
                    let k = choose|k: int| 0 <= k < names_of(list).len() && names_of(list)[k] == n;
                    if k > 0 {
                        assert(names_of(rest)[k - 1] == n);
                    }
                }
            }
        }
        assert(names_of(after).to_set() =~= names_of(list).to_set().insert(p.name));
    }
}

/// A deleted preset is no longer found, and every other one is found as before.
pub proof fn law_deleted_preset_is_gone(list: Seq<PresetView>, name: Seq<char>, other: Seq<char>)
    ensures
        found(without_preset(list, name), name) is None,
        other != name ==> found(without_preset(list, name), other) == found(list, other),
    decreases list.len(),
{
    let keep = |p: PresetView| p.name != name;
    if list.len() > 0 {
        let rest = list.drop_first();
        law_deleted_preset_is_gone(rest, name, other);
        assert(list =~= seq![list[0]] + rest);
        Seq::filter_distributes_over_add(seq![list[0]], rest, keep);
        assert(seq![list[0]].filter(keep) =~= if list[0].name != name {
            seq![list[0]]
        } else {
            Seq::empty()
        }) by {
            reveal(Seq::filter);
            assert(seq![list[0]].drop_last() =~= Seq::<PresetView>::empty());
            assert(Seq::<PresetView>::empty().filter(keep) =~= Seq::<PresetView>::empty());
        }
        if list[0].name != name {
            assert(without_preset(list, name) =~= seq![list[0]] + without_preset(rest, name));
            assert(without_preset(list, name).drop_first() =~= without_preset(rest, name));
        } else {
            assert(without_preset(list, name) =~= without_preset(rest, name));
        }
    } else {
        assert(without_preset(list, name) =~= Seq::<PresetView>::empty()) by {
            reveal(Seq::filter);
        }
    }
}

/// A preset that is saved under a name that exists takes the place of the old one; a new one
/// comes last. So the presets keep their order.
pub proof fn law_saved_preset_keeps_its_place(list: Seq<PresetView>, p: PresetView)
    ensures
        ({
            let after = with_preset(list, p);
            &&& found(list, p.name) is None ==> after == list.push(p)
            &&& found(list, p.name) is Some ==> after.len() == list.len()
            &&& forall|i: int|
                0 <= i < list.len() ==> #[trigger] after[i] == list[i] || (list[i].name == p.name
                    && after[i] == p)
        }),
    decreases list.len(),
{
    let after = with_preset(list, p);
    if list.len() == 0 {
        assert(after =~= list.push(p));
    } else if list[0].name != p.name {
        let rest = list.drop_first();
        law_saved_preset_keeps_its_place(rest, p);
        let rest_after = with_preset(rest, p);
        if found(list, p.name) is None {
            assert(after =~= list.push(p));
        }
        assert forall|i: int| 0 <= i < list.len() implies #[trigger] after[i] == list[i] || (
        list[i].name == p.name && after[i] == p) by {
            if i > 0 {
                assert(after[i] == rest_after[i - 1]);
                assert(list[i] == rest[i - 1]);
            }
        }
    }
}

/// A preset is found where there is one of its name, and then it is one of the list.
pub proof fn law_found_preset_is_one_of_the_list(list: Seq<PresetView>, name: Seq<char>)
    ensures
        found(list, name) matches Some(p) ==> p.name == name && list.contains(p),
        found(list, name) is None ==> forall|i: int|
            0 <= i < list.len() ==> (#[trigger] list[i]).name != name,
    decreases list.len(),
{
    if list.len() > 0 {
        let rest = list.drop_first();
        law_found_preset_is_one_of_the_list(rest, name);
        if list[0].name == name {
            assert(list.contains(list[0]));
        } else {
            if let Some(p) = found(rest, name) {
                let i = choose|i: int| 0 <= i < rest.len() && rest[i] == p;
                assert(list[i + 1] == p);
            }
            assert forall|i: int|
                found(list, name) is None && 0 <= i < list.len() implies (#[trigger] list[i]).name
                != name by {
                if i > 0 {
                    assert(rest[i - 1] == list[i]);
                }
            }
        }
    }
}

} // verus!
