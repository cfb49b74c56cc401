//! The lights of a bridge as a mapping from the number of a light to the
//! light.

use crate::json::{find_last, last_with_key};
use crate::light::model::{HueLight, HueLightView};
use vstd::prelude::*;

verus! {

/// The mapping that a list of entries builds up: each entry maps its key to
/// its value, and a later entry replaces an earlier one with the same key.
pub open spec fn entries_map<V>(entries: Seq<(Seq<char>, V)>) -> Map<Seq<char>, V>
    decreases entries.len(),
{
    if entries.len() == 0 {
        Map::empty()
    } else {
        entries_map(entries.drop_last()).insert(entries.last().0, entries.last().1)
    }
}

/// Whether no two of `entries` have the same key.
pub open spec fn distinct_keys<V>(entries: Seq<(Seq<char>, V)>) -> bool {
    forall|i: int, j: int|
        0 <= i < j < entries.len() ==> (#[trigger] entries[i]).0 != (#[trigger] entries[j]).0
}

/// A key is in the mapping if and only if an entry has it, and it maps to
/// the value of the last entry that has it. The mapping is finite.
pub proof fn lemma_entries_map<V>(entries: Seq<(Seq<char>, V)>, key: Seq<char>)
    ensures
        entries_map(entries).dom().finite(),
        entries_map(entries).contains_key(key) <==> exists|i: int|
            0 <= i < entries.len() && (#[trigger] entries[i]).0 == key,
        match last_with_key(entries, key) {
            Some(value) => entries_map(entries).contains_key(key) && entries_map(entries)[key]
                == value,
            None => !entries_map(entries).contains_key(key),
        },
    decreases entries.len(),
{
    if entries.len() > 0 {
        let front = entries.drop_last();
        lemma_entries_map(front, key);
        if entries.last().0 == key {
            assert(entries[entries.len() - 1].0 == key);
        } else if entries_map(front).contains_key(key) {
            let i = choose|i: int| 0 <= i < front.len() && (#[trigger] front[i]).0 == key;
            assert(entries[i].0 == key);
        } else {
            assert forall|i: int| 0 <= i < entries.len() implies (#[trigger] entries[i]).0
                != key by {
                if i < front.len() {
                    assert(front[i].0 != key);
                }
            }
        }
    }
}

/// One more entry at the end is an insertion into the mapping.
pub proof fn lemma_entries_map_push<V>(entries: Seq<(Seq<char>, V)>, key: Seq<char>, value: V)
    ensures
        entries_map(entries.push((key, value))) == entries_map(entries).insert(key, value),
{
    assert(entries.push((key, value)).drop_last() =~= entries);
}

/// A new value for the last entry that has `key` is an insertion into the
/// mapping as well.
pub proof fn lemma_entries_map_update<V>(entries: Seq<(Seq<char>, V)>, i: int, value: V)
    requires
        0 <= i < entries.len(),
        forall|j: int| i < j < entries.len() ==> (#[trigger] entries[j]).0 != entries[i].0,
    ensures
        entries_map(entries.update(i, (entries[i].0, value))) == entries_map(entries).insert(
            entries[i].0,
            value,
        ),
    decreases entries.len(),
{
    let key = entries[i].0;
    let updated = entries.update(i, (key, value));
    let front = entries.drop_last();
    if i == entries.len() - 1 {
        assert(updated.drop_last() =~= front);
        assert(entries_map(updated) =~= entries_map(entries).insert(key, value));
    } else {
        assert(updated.drop_last() =~= front.update(i, (key, value)));
        assert(front[i] == entries[i]);
        assert forall|j: int| i < j < front.len() implies (#[trigger] front[j]).0 != front[i].0 by {
            assert(entries[j].0 != entries[i].0);
        }
        lemma_entries_map_update(front, i, value);
        assert(entries[entries.len() - 1].0 != key);
        assert(entries_map(updated) =~= entries_map(entries).insert(key, value));
    }
}

/// With no key twice, the mapping has as many keys as there are entries.
pub proof fn lemma_entries_map_len<V>(entries: Seq<(Seq<char>, V)>)
    requires
        distinct_keys(entries),
    ensures
        entries_map(entries).dom().finite(),
        entries_map(entries).dom().len() == entries.len(),
    decreases entries.len(),
{
    if entries.len() > 0 {
        let front = entries.drop_last();
        assert(distinct_keys(front)) by {
            assert forall|i: int, j: int| 0 <= i < j < front.len() implies (#[trigger] front[i]).0
                != (#[trigger] front[j]).0 by {
                assert(entries[i].0 != entries[j].0);
            }
        }
        lemma_entries_map_len(front);
        lemma_entries_map(front, entries.last().0);
        if entries_map(front).contains_key(entries.last().0) {
            let i = choose|i: int|
                0 <= i < front.len() && (#[trigger] front[i]).0 == entries.last().0;
            assert(entries[i].0 != entries[entries.len() - 1].0);
        }
        assert(entries_map(entries).dom() =~= entries_map(front).dom().insert(entries.last().0));
    } else {
        assert(entries_map(entries).dom() =~= Set::empty());
    }
}

/// The lights of a bridge, each under the number by which the bridge knows
/// it. No number is there twice.
#[derive(Debug)]
pub struct Lights {
    entries: Vec<(String, HueLight)>,
}

impl View for Lights {
    type V = Map<Seq<char>, HueLightView>;

    /// The lights as a mapping from numbers to lights.
    closed spec fn view(&self) -> Map<Seq<char>, HueLightView> {
        entries_map(self.entries.deep_view())
    }
}

impl DeepView for Lights {
    type V = Map<Seq<char>, HueLightView>;

    open spec fn deep_view(&self) -> Map<Seq<char>, HueLightView> {
        self@
    }
}

impl Lights {
    /// No number is listed twice.
    #[verifier::type_invariant]
    spec fn no_number_twice(&self) -> bool {
        distinct_keys(self.entries.deep_view())
    }

    /// No lights.
    pub fn new() -> (r: Lights)
        ensures
            r@ == Map::<Seq<char>, HueLightView>::empty(),
    {
        Lights { entries: Vec::new() }
    }

    /// How many lights there are.
    pub fn len(&self) -> (r: usize)
        ensures
            self@.dom().finite(),
            r == self@.dom().len(),
    {
        proof {
            use_type_invariant(self);
            lemma_entries_map_len(self.entries.deep_view());
        }
        self.entries.len()
    }

    /// The light with the number `light_number`, where there is one.
    pub fn get(&self, light_number: &str) -> (r: Option<&HueLight>)
        ensures
            match r {
                Some(light) => self@.contains_key(light_number@) && self@[light_number@] == light@,
                None => !self@.contains_key(light_number@),
            },
    {
        proof {
            lemma_entries_map(self.entries.deep_view(), light_number@);
        }
        match find_last(&self.entries, light_number) {
            Some(i) => Some(&self.entries[i].1),
            None => None,
        }
    }

    /// Puts `light` under the number `light_number`, in place of the light
    /// that was there, if any.
    pub fn insert(self, light_number: String, light: HueLight) -> (r: Lights)
        ensures
            r@ == self@.insert(light_number@, light@),
    {
        proof {
            use_type_invariant(&self);
        }
        let ghost before = self.entries.deep_view();
        let ghost key = light_number@;
        let ghost value = light@;
        let mut entries = self.entries;
        match find_last(&entries, light_number.as_str()) {
            Some(i) => {
                entries.set(i, (light_number, light));
                proof {
                    lemma_entries_map_update(before, i as int, value);
                    assert(entries.deep_view() =~= before.update(i as int, (key, value)));
                    assert(distinct_keys(entries.deep_view())) by {
                        assert forall|a: int, b: int| 0 <= a < b < before.len() implies (
                        #[trigger] entries.deep_view()[a]).0 != (#[trigger] entries.deep_view()[b]).0 by {
                            assert(before[a].0 != before[b].0);
                        }
                    }
                }
            },
            None => {
                entries.push((light_number, light));
                proof {
                    lemma_entries_map_push(before, key, value);
                    assert(entries.deep_view() =~= before.push((key, value)));
                    assert(distinct_keys(entries.deep_view())) by {
                        assert forall|a: int, b: int| 0 <= a < b < before.len() + 1 implies (
                        #[trigger] entries.deep_view()[a]).0 != (#[trigger] entries.deep_view()[b]).0 by {
                            if b < before.len() {
                                assert(before[a].0 != before[b].0);
                            } else {
                                assert(before[a].0 == self.entries[a].0@);
                            }
                        }
                    }
                }
            },
        }
        Lights { entries }
    }

    /// The lights as a list, each with its number. Every light is listed
    /// once, in no order that means anything.
    pub fn into_entries(self) -> (r: Vec<(String, HueLight)>)
        ensures
            distinct_keys(r.deep_view()),
            entries_map(r.deep_view()) == self@,
    {
        proof {
            use_type_invariant(&self);
        }
        self.entries
    }
}

} // verus!
