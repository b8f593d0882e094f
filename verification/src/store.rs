//! The profile store: the profiles of a configuration file by name, in file
//! order. A profile is taken from the store by removing it, so that no
//! profile can be used twice.

use crate::profile::Profile;
use crate::profile::ProfileView;
use indexmap::IndexMap;
use vstd::prelude::*;

verus! {

/// `indexmap::IndexMap`, a map that keeps its entries in the order of their
/// insertion. What it holds is known through `map_entries` alone.
#[verifier::external_type_specification]
#[verifier::external_body]
#[verifier::reject_recursive_types(K)]
#[verifier::reject_recursive_types(V)]
#[verifier::reject_recursive_types(S)]
pub struct ExIndexMap<K, V, S>(IndexMap<K, V, S>);

/// The entries of an `IndexMap` of profiles in its order, each as the value
/// of its key and the value of its profile.
pub uninterp spec fn map_entries(map: IndexMap<String, Profile>) -> Seq<(Seq<char>, ProfileView)>;

/// The names of `entries`, in order.
pub open spec fn names_of(entries: Seq<(Seq<char>, ProfileView)>) -> Seq<Seq<char>> {
    entries.map_values(|entry: (Seq<char>, ProfileView)| entry.0)
}

/// The index in `entries` of the first profile called `name`, if there is
/// one. With unique names it is the only one.
pub open spec fn position(entries: Seq<(Seq<char>, ProfileView)>, name: Seq<char>) -> Option<int> {
    names_of(entries).index_of_first(name)
}

/// The profile called `name` in `entries`, if there is one.
pub open spec fn profile_named(entries: Seq<(Seq<char>, ProfileView)>, name: Seq<char>) -> Option<
    ProfileView,
> {
    match position(entries, name) {
        Some(index) => Some(entries[index].1),
        None => None,
    }
}

/// `entries` without the entry at `index`, whose place the last entry takes.
pub open spec fn swap_removed(
    entries: Seq<(Seq<char>, ProfileView)>,
    index: int,
) -> Seq<(Seq<char>, ProfileView)> {
    entries.update(index, entries.last()).drop_last()
}

/// `entries` after `name` is given the value `profile`: in place where the
/// name is there already, as a new last entry where it is not.
pub open spec fn inserted(
    entries: Seq<(Seq<char>, ProfileView)>,
    name: Seq<char>,
    profile: ProfileView,
) -> Seq<(Seq<char>, ProfileView)> {
    match position(entries, name) {
        Some(index) => entries.update(index, (name, profile)),
        None => entries.push((name, profile)),
    }
}

/// `IndexMap::new`: a map without entries.
#[verifier::external_body]
fn map_new() -> (map: IndexMap<String, Profile>)
    ensures
        map_entries(map) == Seq::<(Seq<char>, ProfileView)>::empty(),
{
    IndexMap::new()
}

/// `IndexMap::len`: the number of entries.
#[verifier::external_body]
fn map_len(map: &IndexMap<String, Profile>) -> (n: usize)
    ensures
        n == map_entries(*map).len(),
{
    map.len()
}

/// `IndexMap::insert`: where an equal key is in the map, it keeps its place
/// and takes the new value, and the value it had is returned; where none is,
/// the pair becomes the last entry and nothing is returned.
#[verifier::external_body]
fn map_insert(map: &mut IndexMap<String, Profile>, name: String, profile: Profile) -> (r: Option<
    Profile,
>)
    ensures
        map_entries(*final(map)) == inserted(map_entries(*old(map)), name@, profile@),
        match position(map_entries(*old(map)), name@) {
            Some(index) => r matches Some(before) && before@ == map_entries(*old(map))[index].1,
            None => r is None,
        },
{
    map.insert(name, profile)
}

/// `IndexMap::swap_remove_entry`: the entry with an equal key is returned and
/// leaves the map, and the last entry takes its place; without such an entry
/// nothing is returned and the map stays as it is.
#[verifier::external_body]
fn map_swap_remove_entry(map: &mut IndexMap<String, Profile>, name: &str) -> (r: Option<
    (String, Profile),
>)
    ensures
        match position(map_entries(*old(map)), name@) {
            Some(index) => {
                &&& r matches Some(entry)
                &&& (entry.0@, entry.1@) == map_entries(*old(map))[index]
                &&& map_entries(*final(map)) == swap_removed(map_entries(*old(map)), index)
            },
            None => r is None && map_entries(*final(map)) == map_entries(*old(map)),
        },
{
    map.swap_remove_entry(name)
}

/// `IndexMap::swap_remove_index`: the entry at a valid index is returned and
/// leaves the map, and the last entry takes its place; at another index
/// nothing is returned and the map stays as it is.
#[verifier::external_body]
fn map_swap_remove_index(map: &mut IndexMap<String, Profile>, index: usize) -> (r: Option<
    (String, Profile),
>)
    ensures
        r is Some <==> index < map_entries(*old(map)).len(),
        r matches Some(entry) ==> {
            &&& (entry.0@, entry.1@) == map_entries(*old(map))[index as int]
            &&& map_entries(*final(map)) == swap_removed(map_entries(*old(map)), index as int)
        },
        r is None ==> map_entries(*final(map)) == map_entries(*old(map)),
{
    map.swap_remove_index(index)
}

/// `IndexMap::get_index`: of the entry at a valid index, the name and the
/// `doc` of its profile; nothing at another index.
#[verifier::external_body]
fn map_name_and_doc(map: &IndexMap<String, Profile>, index: usize) -> (r: Option<
    (String, Option<String>),
>)
    ensures
        r is Some <==> index < map_entries(*map).len(),
        r matches Some(pair) ==> {
            &&& pair.0@ == map_entries(*map)[index as int].0
            &&& pair.1.deep_view() == map_entries(*map)[index as int].1.doc
        },
{
    map.get_index(index).map(|(name, profile)| (name.clone(), profile.doc.clone()))
}

/// The profiles of a configuration file by name, in file order.
pub struct ProfileStore {
    map: IndexMap<String, Profile>,
}

impl View for ProfileStore {
    type V = Seq<(Seq<char>, ProfileView)>;

    closed spec fn view(&self) -> Seq<(Seq<char>, ProfileView)> {
        map_entries(self.map)
    }
}

impl ProfileStore {
    /// Whether the store is well formed: no two of its profiles have the
    /// same name. A new store is, and every operation keeps a store so.
    pub open spec fn wf(&self) -> bool {
        names_of(self@).no_duplicates()
    }

    /// A store without profiles.
    pub fn new() -> (r: ProfileStore)
        ensures
            r@ == Seq::<(Seq<char>, ProfileView)>::empty(),
            r.wf(),
    {
        ProfileStore { map: map_new() }
    }

    /// The number of profiles in the store.
    pub fn len(&self) -> (n: usize)
        ensures
            n == self@.len(),
    {
        map_len(&self.map)
    }

    /// The name and the `doc` of the profile at `index`, where there is one.
    pub fn name_and_doc(&self, index: usize) -> (r: Option<(String, Option<String>)>)
        ensures
            r is Some <==> index < self@.len(),
            r matches Some(pair) ==> {
                &&& pair.0@ == self@[index as int].0
                &&& pair.1.deep_view() == self@[index as int].1.doc
            },
    {
        map_name_and_doc(&self.map, index)
    }

    /// Gives `name` the value `profile`. A name that the store holds keeps
    /// its place and the profile it had is returned; a new name comes last.
    pub fn insert(&mut self, name: String, profile: Profile) -> (r: Option<Profile>)
        ensures
            final(self)@ == inserted(old(self)@, name@, profile@),
            match position(old(self)@, name@) {
                Some(index) => r matches Some(before) && before@ == old(self)@[index].1,
                None => r is None,
            },
            old(self).wf() ==> final(self).wf(),
    {
        proof {
            if self.wf() {
                lemma_inserted_unique(self@, name@, profile@);
            }
        }
        map_insert(&mut self.map, name, profile)
    }

    /// Removes the profile called `name` and returns it. The last profile
    /// takes its place in the order.
    pub fn remove_by_name(&mut self, name: &str) -> (r: Option<Profile>)
        ensures
            match position(old(self)@, name@) {
                Some(index) => {
                    &&& r matches Some(profile)
                    &&& profile@ == old(self)@[index].1
                    &&& final(self)@ == swap_removed(old(self)@, index)
                },
                None => r is None && final(self)@ == old(self)@,
            },
            old(self).wf() ==> final(self).wf(),
    {
        proof {
            lemma_position(self@, name@);
            if self.wf() && position(self@, name@) is Some {
                lemma_swap_removed_unique(self@, position(self@, name@).unwrap());
            }
        }
        match map_swap_remove_entry(&mut self.map, name) {
            Some(entry) => Some(entry.1),
            None => None,
        }
    }

    /// Removes the first profile and returns it with its name. The last
    /// profile takes its place in the order.
    pub fn remove_first(&mut self) -> (r: Option<(String, Profile)>)
        ensures
            r is Some <==> old(self)@.len() > 0,
            r matches Some(entry) ==> {
                &&& (entry.0@, entry.1@) == old(self)@[0]
                &&& final(self)@ == swap_removed(old(self)@, 0)
            },
            r is None ==> final(self)@ == old(self)@,
            old(self).wf() ==> final(self).wf(),
    {
        proof {
            if self.wf() && self@.len() > 0 {
                lemma_swap_removed_unique(self@, 0);
            }
        }
        map_swap_remove_index(&mut self.map, 0)
    }
}

/// What `position` returns: the index of an entry called `name` before which
/// no entry has that name, or nothing where no entry has it.
pub proof fn lemma_position(entries: Seq<(Seq<char>, ProfileView)>, name: Seq<char>)
    ensures
        match position(entries, name) {
            Some(index) => {
                &&& 0 <= index < entries.len()
                &&& entries[index].0 == name
                &&& forall|j: int| 0 <= j < index ==> entries[j].0 != name
            },
            None => forall|j: int| 0 <= j < entries.len() ==> entries[j].0 != name,
        },
{
    let names = names_of(entries);
    names.index_of_first_ensures(name);
    match position(entries, name) {
        Some(index) => {
            assert forall|j: int| 0 <= j < index implies entries[j].0 != name by {
                assert(names[j] != name);
            }
        },
        None => {
            assert forall|j: int| 0 <= j < entries.len() implies entries[j].0 != name by {
                assert(names[j] == entries[j].0);
            }
        },
    }
}

/// In a store whose names are unique, `position` finds the one entry with a
/// name.
pub proof fn lemma_position_unique(entries: Seq<(Seq<char>, ProfileView)>, index: int)
    requires
        names_of(entries).no_duplicates(),
        0 <= index < entries.len(),
    ensures
        position(entries, entries[index].0) == Some(index),
{
    lemma_position(entries, entries[index].0);
    let found = position(entries, entries[index].0);
    if found is Some && found.unwrap() != index {
        assert(names_of(entries)[found.unwrap()] == names_of(entries)[index]);
    }
}

/// An insertion keeps the names of a store unique.
pub proof fn lemma_inserted_unique(
    entries: Seq<(Seq<char>, ProfileView)>,
    name: Seq<char>,
    profile: ProfileView,
)
    requires
        names_of(entries).no_duplicates(),
    ensures
        names_of(inserted(entries, name, profile)).no_duplicates(),
{
    lemma_position(entries, name);
    let after = inserted(entries, name, profile);
    assert forall|i: int, j: int|
        0 <= i < after.len() && 0 <= j < after.len() && i != j implies names_of(after)[i]
        != names_of(after)[j] by {
        match position(entries, name) {
            Some(index) => {
                assert(names_of(entries)[i] == names_of(after)[i]);
                assert(names_of(entries)[j] == names_of(after)[j]);
            },
            None => {
                if i < entries.len() && j < entries.len() {
                    assert(names_of(entries)[i] == names_of(after)[i]);
                    assert(names_of(entries)[j] == names_of(after)[j]);
                }
            },
        }
    }
}

/// A removal keeps the names of a store unique.
pub proof fn lemma_swap_removed_unique(entries: Seq<(Seq<char>, ProfileView)>, index: int)
    requires
        names_of(entries).no_duplicates(),
        0 <= index < entries.len(),
    ensures
        names_of(swap_removed(entries, index)).no_duplicates(),
{
    let after = swap_removed(entries, index);
    let last = entries.len() - 1;
    assert forall|i: int, j: int|
        0 <= i < after.len() && 0 <= j < after.len() && i != j implies names_of(after)[i]
        != names_of(after)[j] by {
        let from_i = if i == index { last } else { i };
        let from_j = if j == index { last } else { j };
        assert(names_of(after)[i] == names_of(entries)[from_i]);
        assert(names_of(after)[j] == names_of(entries)[from_j]);
    }
}

/// After a removal the store holds every other profile under its name, and
/// none under the name that left.
pub proof fn lemma_swap_removed_lookup(
    entries: Seq<(Seq<char>, ProfileView)>,
    index: int,
    name: Seq<char>,
)
    requires
        names_of(entries).no_duplicates(),
        0 <= index < entries.len(),
    ensures
        profile_named(swap_removed(entries, index), name) == if name == entries[index].0 {
            None
        } else {
            profile_named(entries, name)
        },
{
    let after = swap_removed(entries, index);
    let last = entries.len() - 1;
    lemma_position(entries, name);
    lemma_position(after, name);
    assert forall|j: int| 0 <= j < after.len() implies after[j] == entries[if j == index {
        last
    } else {
        j
    }] by {}
    match position(after, name) {
        Some(found) => {
            let origin = if found == index { last } else { found };
            assert(names_of(entries)[origin] == name);
            assert(names_of(entries)[index] == entries[index].0);
            lemma_position_unique(entries, origin);
        },
        None => {
            if name != entries[index].0 && position(entries, name) is Some {
                let origin = position(entries, name).unwrap();
                let moved = if origin == last { index } else { origin };
                assert(after[moved].0 == name);
            }
        },
    }
}

} // verus!
