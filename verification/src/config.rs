//! The settings of a run: command-line arguments, the choice of the active
//! profile, its inheritance from other profiles of the store, and the place
//! of the configuration file.

use crate::profile::merged;
use crate::profile::Profile;
use crate::profile::ProfileView;
use crate::store::lemma_position;
use crate::store::lemma_swap_removed_lookup;
use crate::store::lemma_swap_removed_unique;
use crate::store::names_of;
use crate::store::profile_named;
use crate::store::position;
use crate::store::swap_removed;
use crate::store::ProfileStore;
use std::path::PathBuf;
use vstd::prelude::*;

verus! {

/// Command-line arguments.
#[derive(Clone, Debug, PartialEq, Eq)]
pub struct Args {
    /// Profile to use; the first profile of the file where none is named.
    pub profile: Option<String>,
    /// Only show what would be sent.
    pub dry_run: bool,
    /// Path of the configuration file to use.
    pub config: Option<String>,
    /// Only list the profiles that have a `doc`.
    pub list: bool,
}

/// What a run is to do.
#[derive(Clone, Debug, PartialEq, Eq)]
pub enum Settings {
    /// List these profiles: the name and the `doc` of every profile that has
    /// one, in file order.
    Listing(Vec<(String, String)>),
    /// Prepare the text with this profile. The arguments are those given,
    /// without the profile's name.
    Active(Profile, Args),
}

/// Why no active profile could be made.
#[derive(Clone, Debug, PartialEq, Eq)]
pub enum ResolutionError {
    /// The named profile is not in the store.
    UnknownProfile(String),
    /// The store holds no profile.
    NoProfiles,
    /// The chosen profile, named here, has no `doc`.
    NotCallable(String),
    /// A profile inherits from the profile named here, which is not in the
    /// store: it never was, or it has been used already.
    InheritanceLoopOrMissing(String),
}

/// The mathematical value of a [`ResolutionError`].
pub ghost enum ResolutionErrorView {
    UnknownProfile(Seq<char>),
    NoProfiles,
    NotCallable(Seq<char>),
    InheritanceLoopOrMissing(Seq<char>),
}

impl View for ResolutionError {
    type V = ResolutionErrorView;

    open spec fn view(&self) -> ResolutionErrorView {
        match self {
            ResolutionError::UnknownProfile(name) => ResolutionErrorView::UnknownProfile(name@),
            ResolutionError::NoProfiles => ResolutionErrorView::NoProfiles,
            ResolutionError::NotCallable(name) => ResolutionErrorView::NotCallable(name@),
            ResolutionError::InheritanceLoopOrMissing(name) => {
                ResolutionErrorView::InheritanceLoopOrMissing(name@)
            },
        }
    }
}

/// The value of a profile or of the error in its place.
pub open spec fn outcome(r: Result<Profile, ResolutionError>) -> Result<
    ProfileView,
    ResolutionErrorView,
> {
    match r {
        Ok(profile) => Ok(profile@),
        Err(error) => Err(error@),
    }
}

/// The profile that `profile` becomes through inheritance from the profiles
/// of `entries`, or the error that ends the resolution.
///
/// While the profile names a parent, the parent leaves the store and is
/// merged into the profile. A parent that the store does not hold ends the
/// resolution with an error. The resolved profile names no parent and has
/// no `doc`, which serves the choice of a profile alone.
pub open spec fn resolved(profile: ProfileView, entries: Seq<(Seq<char>, ProfileView)>) -> Result<
    ProfileView,
    ResolutionErrorView,
>
    decreases entries.len(),
{
    match profile.inherit {
        None => Ok(ProfileView { doc: None, ..profile }),
        Some(parent) => match position(entries, parent) {
            None => Err(ResolutionErrorView::InheritanceLoopOrMissing(parent)),
            Some(index) => {
                proof {
                    lemma_position(entries, parent);
                }
                resolved(merged(profile, entries[index].1), swap_removed(entries, index))
            },
        },
    }
}

/// The store that the resolution of `profile` leaves of `entries`.
pub open spec fn remaining(profile: ProfileView, entries: Seq<(Seq<char>, ProfileView)>) -> Seq<
    (Seq<char>, ProfileView),
>
    decreases entries.len(),
{
    match profile.inherit {
        None => entries,
        Some(parent) => match position(entries, parent) {
            None => entries,
            Some(index) => {
                proof {
                    lemma_position(entries, parent);
                }
                remaining(merged(profile, entries[index].1), swap_removed(entries, index))
            },
        },
    }
}

/// The number of parents that the resolution of `profile` finds in `entries`
/// and merges.
pub open spec fn lookups(profile: ProfileView, entries: Seq<(Seq<char>, ProfileView)>) -> nat
    decreases entries.len(),
{
    match profile.inherit {
        None => 0,
        Some(parent) => match position(entries, parent) {
            None => 0,
            Some(index) => {
                proof {
                    lemma_position(entries, parent);
                }
                1 + lookups(merged(profile, entries[index].1), swap_removed(entries, index))
            },
        },
    }
}

/// The name that link `i` of a chain points to: the parent of `profile` for
/// the first link, the parent of the profile called `names[i - 1]` after it.
pub open spec fn link(
    profile: ProfileView,
    entries: Seq<(Seq<char>, ProfileView)>,
    names: Seq<Seq<char>>,
    i: int,
) -> Option<Seq<char>> {
    if i == 0 {
        profile.inherit
    } else {
        match profile_named(entries, names[i - 1]) {
            Some(parent) => parent.inherit,
            None => None,
        }
    }
}

/// Whether `names` is a chain of ancestors of `profile` in `entries`: the
/// profile inherits from the first name, the profile of each name from the
/// next name, and the store holds a profile for every name.
pub open spec fn is_chain(
    profile: ProfileView,
    entries: Seq<(Seq<char>, ProfileView)>,
    names: Seq<Seq<char>>,
) -> bool {
    forall|i: int|
        0 <= i < names.len() ==> #[trigger] link(profile, entries, names, i) == Some(names[i])
            && profile_named(entries, names[i]) is Some
}

/// Resolves the inheritance of `profile` from the profiles of `store`.
///
/// Every parent that is found leaves the store, so a profile that is named
/// a second time is missing like one that never was there. The resolved
/// profile names no parent and has no `doc`.
pub fn resolve(profile: Profile, store: &mut ProfileStore) -> (r: Result<Profile, ResolutionError>)
    ensures
        outcome(r) == resolved(profile@, old(store)@),
        r matches Ok(usable) ==> usable@.inherit is None && usable@.doc is None,
        final(store)@ == remaining(profile@, old(store)@),
        old(store).wf() ==> final(store).wf(),
{
    proof {
        lemma_resolution_consumes(profile@, store@);
    }
    let mut current = profile;
    loop
        invariant
            resolved(current@, store@) == resolved(profile@, old(store)@),
            remaining(current@, store@) == remaining(profile@, old(store)@),
            old(store).wf() ==> names_of(remaining(profile@, old(store)@)).no_duplicates(),
        decreases store@.len(),
    {
        let ghost child = current@;
        proof {
            if child.inherit is Some {
                lemma_position(store@, child.inherit.unwrap());
            }
        }
        match current.inherit.take() {
            None => {
                current.doc = None;
                return Ok(current);
            },
            Some(parent) => {
                match store.remove_by_name(parent.as_str()) {
                    None => {
                        return Err(ResolutionError::InheritanceLoopOrMissing(parent));
                    },
                    Some(found) => {
                        current = current.inherit_from(found);
                    },
                }
            },
        }
    }
}

/// Every parent that a resolution finds leaves the store: the store that is
/// left and the parents found make up the store that was there. So no
/// resolution finds more parents than the store has profiles, and the names
/// that are left are unique if they were. A profile that is resolved is
/// usable: it names no parent and has no `doc`.
pub proof fn lemma_resolution_consumes(profile: ProfileView, entries: Seq<(Seq<char>, ProfileView)>)
    ensures
        remaining(profile, entries).len() + lookups(profile, entries) == entries.len(),
        names_of(entries).no_duplicates() ==> names_of(remaining(profile, entries)).no_duplicates(),
        resolved(profile, entries) matches Ok(usable) ==> usable.inherit is None && usable.doc
            is None,
    decreases entries.len(),
{
    if let Some(parent) = profile.inherit {
        lemma_position(entries, parent);
        if let Some(index) = position(entries, parent) {
            if names_of(entries).no_duplicates() {
                lemma_swap_removed_unique(entries, index);
            }
            lemma_resolution_consumes(
                merged(profile, entries[index].1),
                swap_removed(entries, index),
            );
        }
    }
}

/// One step along a chain: after the first ancestor is merged and removed,
/// the rest of the chain is a chain of the merged profile in the store that
/// is left, with the same end.
proof fn lemma_chain_step(
    profile: ProfileView,
    entries: Seq<(Seq<char>, ProfileView)>,
    names: Seq<Seq<char>>,
)
    requires
        names_of(entries).no_duplicates(),
        names.no_duplicates(),
        is_chain(profile, entries, names),
        names.len() > 0,
    ensures
        profile.inherit == Some(names[0]),
        position(entries, names[0]) is Some,
        0 <= position(entries, names[0]).unwrap() < entries.len(),
        ({
            let index = position(entries, names[0]).unwrap();
            let child = merged(profile, entries[index].1);
            let rest = swap_removed(entries, index);
            &&& names_of(rest).no_duplicates()
            &&& names.drop_first().no_duplicates()
            &&& is_chain(child, rest, names.drop_first())
            &&& link(child, rest, names.drop_first(), names.len() - 1) == link(
                profile,
                entries,
                names,
                names.len() as int,
            )
            &&& forall|name: Seq<char>|
                profile_named(rest, name) == if name == names[0] {
                    None
                } else {
                    profile_named(entries, name)
                }
        }),
{
    assert(link(profile, entries, names, 0) == Some(names[0]));
    lemma_position(entries, names[0]);
    let index = position(entries, names[0]).unwrap();
    let child = merged(profile, entries[index].1);
    let rest = swap_removed(entries, index);
    let tail = names.drop_first();
    lemma_swap_removed_unique(entries, index);
    assert forall|name: Seq<char>|
        profile_named(rest, name) == if name == names[0] {
            None
        } else {
            profile_named(entries, name)
        } by {
        lemma_swap_removed_lookup(entries, index, name);
    }
    assert forall|i: int| 0 <= i <= tail.len() implies link(child, rest, tail, i) == link(
        profile,
        entries,
        names,
        i + 1,
    ) by {
        if i > 0 {
            assert(tail[i - 1] == names[i]);
            assert(names[i] != names[0]);
        }
    }
    assert forall|i: int| 0 <= i < tail.len() implies #[trigger] link(child, rest, tail, i) == Some(
        tail[i],
    ) && profile_named(rest, tail[i]) is Some by {
        assert(tail[i] == names[i + 1]);
        assert(link(profile, entries, names, i + 1) == Some(names[i + 1]));
    }
}

/// A chain of ancestors that ends resolves: where `names` is a chain of
/// distinct ancestors of `profile` and the last of them inherits from
/// nothing, the resolution succeeds after exactly one lookup for each name,
/// and each of them has left the store.
pub proof fn lemma_acyclic_chain_resolves(
    profile: ProfileView,
    entries: Seq<(Seq<char>, ProfileView)>,
    names: Seq<Seq<char>>,
)
    requires
        names_of(entries).no_duplicates(),
        names.no_duplicates(),
        is_chain(profile, entries, names),
        link(profile, entries, names, names.len() as int) is None,
    ensures
        resolved(profile, entries) is Ok,
        lookups(profile, entries) == names.len(),
        remaining(profile, entries).len() == entries.len() - names.len(),
        forall|name: Seq<char>|
            profile_named(remaining(profile, entries), name) == if names.contains(name) {
                None
            } else {
                profile_named(entries, name)
            },
    decreases names.len(),
{
    if names.len() > 0 {
        lemma_chain_step(profile, entries, names);
        let index = position(entries, names[0]).unwrap();
        let child = merged(profile, entries[index].1);
        let rest = swap_removed(entries, index);
        let tail = names.drop_first();
        lemma_acyclic_chain_resolves(child, rest, tail);
        assert forall|name: Seq<char>|
            profile_named(remaining(profile, entries), name) == if names.contains(name) {
                None
            } else {
                profile_named(entries, name)
            } by {
            if tail.contains(name) {
                let i = choose|i: int| 0 <= i < tail.len() && tail[i] == name;
                assert(names[i + 1] == name);
            }
            if names.contains(name) && name != names[0] {
                let i = choose|i: int| 0 <= i < names.len() && names[i] == name;
                assert(tail[i - 1] == name);
            }
        }
    }
}

/// A chain of ancestors that leads back fails: where `names` is a chain of
/// distinct ancestors of `profile` and the last of them inherits from
/// `missing`, which is one of the chain or is not in the store at all, the
/// resolution finds each name once and fails at the lookup of `missing`.
pub proof fn lemma_cyclic_chain_fails(
    profile: ProfileView,
    entries: Seq<(Seq<char>, ProfileView)>,
    names: Seq<Seq<char>>,
    missing: Seq<char>,
)
    requires
        names_of(entries).no_duplicates(),
        names.no_duplicates(),
        is_chain(profile, entries, names),
        link(profile, entries, names, names.len() as int) == Some(missing),
        names.contains(missing) || profile_named(entries, missing) is None,
    ensures
        resolved(profile, entries) == Err::<ProfileView, ResolutionErrorView>(
            ResolutionErrorView::InheritanceLoopOrMissing(missing),
        ),
        lookups(profile, entries) == names.len(),
    decreases names.len(),
{
    if names.len() > 0 {
        lemma_chain_step(profile, entries, names);
        let index = position(entries, names[0]).unwrap();
        let child = merged(profile, entries[index].1);
        let rest = swap_removed(entries, index);
        let tail = names.drop_first();
        if names.contains(missing) && missing != names[0] {
            let i = choose|i: int| 0 <= i < names.len() && names[i] == missing;
            assert(tail[i - 1] == missing);
        }
        lemma_cyclic_chain_fails(child, rest, tail, missing);
    }
}

/// A profile cannot inherit from itself: the chosen profile has left the
/// store when its parents are looked up, so its own name is missing there.
pub proof fn lemma_self_reference_fails(
    entries: Seq<(Seq<char>, ProfileView)>,
    name: Option<Seq<char>>,
)
    requires
        names_of(entries).no_duplicates(),
        chosen(entries, name) matches Ok(index) && entries[index].1.doc is Some
            && entries[index].1.inherit == Some(entries[index].0),
    ensures
        chosen(entries, name) matches Ok(index) && activated(entries, name) == Err::<
            ProfileView,
            ResolutionErrorView,
        >(ResolutionErrorView::InheritanceLoopOrMissing(entries[index].0)),
{
    if let Some(wanted) = name {
        lemma_position(entries, wanted);
    }
    let index = chosen(entries, name)->Ok_0;
    lemma_swap_removed_lookup(entries, index, entries[index].0);
    lemma_swap_removed_unique(entries, index);
    lemma_cyclic_chain_fails(
        entries[index].1,
        swap_removed(entries, index),
        Seq::empty(),
        entries[index].0,
    );
}

/// The name and the `doc` of every profile of `entries` that has one, in
/// order.
pub open spec fn documented(entries: Seq<(Seq<char>, ProfileView)>) -> Seq<(Seq<char>, Seq<char>)> {
    entries.filter_map(
        |entry: (Seq<char>, ProfileView)|
            match entry.1.doc {
                Some(doc) => Some((entry.0, doc)),
                None => None,
            },
    )
}

/// The index in `entries` of the profile to use: the one called `name`, or
/// the first where no name is given.
pub open spec fn chosen(entries: Seq<(Seq<char>, ProfileView)>, name: Option<Seq<char>>) -> Result<
    int,
    ResolutionErrorView,
> {
    match name {
        Some(name) => match position(entries, name) {
            Some(index) => Ok(index),
            None => Err(ResolutionErrorView::UnknownProfile(name)),
        },
        None => if entries.len() > 0 {
            Ok(0)
        } else {
            Err(ResolutionErrorView::NoProfiles)
        },
    }
}

/// The active profile that the choice of `name` among `entries` gives: the
/// chosen profile, which must have a `doc`, resolved against the other
/// profiles.
pub open spec fn activated(entries: Seq<(Seq<char>, ProfileView)>, name: Option<Seq<char>>) -> Result<
    ProfileView,
    ResolutionErrorView,
> {
    match chosen(entries, name) {
        Err(error) => Err(error),
        Ok(index) => if entries[index].1.doc is None {
            Err(ResolutionErrorView::NotCallable(entries[index].0))
        } else {
            resolved(entries[index].1, swap_removed(entries, index))
        },
    }
}

/// The name and the `doc` of every profile of the store that has a `doc`,
/// in the order of the store.
pub fn list_profiles(store: &ProfileStore) -> (lines: Vec<(String, String)>)
    ensures
        lines.deep_view() == documented(store@),
{
    let mut lines: Vec<(String, String)> = Vec::new();
    let count = store.len();
    let mut index: usize = 0;
    while index < count
        invariant
            count == store@.len(),
            index <= count,
            lines.deep_view() == documented(store@.take(index as int)),
        decreases count - index,
    {
        let ghost before = lines.deep_view();
        let entry = store.name_and_doc(index);
        proof {
            store@.lemma_filter_map_take_succ(
                |entry: (Seq<char>, ProfileView)|
                    match entry.1.doc {
                        Some(doc) => Some((entry.0, doc)),
                        None => None,
                    },
                index as int,
            );
        }
        match entry {
            Some((name, Some(doc))) => {
                lines.push((name, doc));
            },
            _ => {},
        }
        index += 1;
    }
    assert(store@.take(count as int) == store@);
    lines
}

/// Takes the profile to use out of the store, with its name: the profile
/// called `name`, or the first of the store where no name is given.
pub fn select(store: &mut ProfileStore, name: Option<String>) -> (r: Result<
    (String, Profile),
    ResolutionError,
>)
    ensures
        match chosen(old(store)@, name.deep_view()) {
            Ok(index) => {
                &&& r matches Ok(entry)
                &&& (entry.0@, entry.1@) == old(store)@[index]
                &&& final(store)@ == swap_removed(old(store)@, index)
            },
            Err(error) => {
                &&& r matches Err(e)
                &&& e@ == error
                &&& final(store)@ == old(store)@
            },
        },
        old(store).wf() ==> final(store).wf(),
{
    match name {
        Some(name) => {
            proof {
                lemma_position(store@, name@);
            }
            match store.remove_by_name(name.as_str()) {
                Some(profile) => Ok((name, profile)),
                None => Err(ResolutionError::UnknownProfile(name)),
            }
        },
        None => match store.remove_first() {
            Some(first) => Ok(first),
            None => Err(ResolutionError::NoProfiles),
        },
    }
}

/// Decides what a run does, from its arguments and the profiles of the
/// configuration file.
///
/// With `list` set, the profiles that have a `doc` are listed. Otherwise the
/// named profile, or the first one, becomes the active profile: it must have
/// a `doc`, and it inherits from the other profiles of the store. The active
/// profile is usable: it names no parent any more and its `doc` is cleared.
pub fn get_settings(args: Args, store: ProfileStore) -> (r: Result<Settings, ResolutionError>)
    ensures
        match r {
            Ok(Settings::Listing(lines)) => args.list && lines.deep_view() == documented(store@),
            Ok(Settings::Active(profile, rest)) => {
                &&& !args.list
                &&& activated(store@, args.profile.deep_view()) == Ok::<
                    ProfileView,
                    ResolutionErrorView,
                >(profile@)
                &&& profile@.inherit is None
                &&& profile@.doc is None
                &&& rest.profile is None
                &&& rest.dry_run == args.dry_run
                &&& rest.config == args.config
                &&& rest.list == args.list
            },
            Err(error) => {
                &&& !args.list
                &&& activated(store@, args.profile.deep_view()) == Err::<
                    ProfileView,
                    ResolutionErrorView,
                >(error@)
            },
        },
{
    let mut args = args;
    let mut store = store;
    if args.list {
        return Ok(Settings::Listing(list_profiles(&store)));
    }
    let (name, profile) = match select(&mut store, args.profile.take()) {
        Ok(entry) => entry,
        Err(error) => {
            return Err(error);
        },
    };
    if profile.doc.is_none() {
        return Err(ResolutionError::NotCallable(name));
    }
    match resolve(profile, &mut store) {
        Ok(profile) => Ok(Settings::Active(profile, args)),
        Err(error) => Err(error),
    }
}

/// `std::path::PathBuf`, a path whose inside is not looked at.
#[verifier::external_type_specification]
#[verifier::external_body]
pub struct ExPathBuf(PathBuf);

/// The path that the text `text` is.
pub uninterp spec fn path_of(text: Seq<char>) -> PathBuf;

/// The path `base` extended with `part`.
pub uninterp spec fn joined(base: PathBuf, part: Seq<char>) -> PathBuf;

/// `PathBuf::from` for a `String`: the text as a path.
#[verifier::external_body]
fn path_from(text: String) -> (path: PathBuf)
    ensures
        path == path_of(text@),
{
    PathBuf::from(text)
}

/// `PathBuf::push`: extends the path with `part`.
#[verifier::external_body]
fn path_push(path: &mut PathBuf, part: &str)
    ensures
        *final(path) == joined(*old(path), part@),
{
    path.push(part)
}

/// `dirs::config_dir`: the configuration directory of the user, where the
/// system names one. It depends on the environment, so nothing is known of
/// it.
#[verifier::external_body]
fn user_config_dir() -> (dir: Option<PathBuf>) {
    dirs::config_dir()
}

/// The name of the program, and of its directory under the user's
/// configuration directory.
pub open spec fn program_name() -> Seq<char> {
    "eventmail"@
}

/// The name of the configuration file in the program's directory.
pub open spec fn config_file() -> Seq<char> {
    "eventmail.toml"@
}

/// The program's configuration directory under the user's configuration
/// directory `base`, where there is one.
pub open spec fn xdg_config_dir(base: Option<PathBuf>) -> Option<PathBuf> {
    match base {
        Some(base) => Some(joined(base, program_name())),
        None => None,
    }
}

/// The configuration file to read: the one that the arguments name, or the
/// default file in the program's configuration directory, where the user's
/// configuration directory `base` is known.
pub open spec fn config_file_name(args_config: Option<Seq<char>>, base: Option<PathBuf>) -> Option<
    PathBuf,
> {
    match args_config {
        Some(name) => Some(path_of(name)),
        None => match xdg_config_dir(base) {
            Some(dir) => Some(joined(dir, config_file())),
            None => None,
        },
    }
}

/// The program's directory under the user's configuration directory `base`;
/// nothing where `base` is nothing.
pub fn xdg_config_dir_in(base: Option<PathBuf>) -> (dir: Option<PathBuf>)
    ensures
        dir == xdg_config_dir(base),
{
    match base {
        Some(base) => {
            let mut dir = base;
            path_push(&mut dir, "eventmail");
            Some(dir)
        },
        None => None,
    }
}

/// The program's configuration directory: the directory `eventmail` under
/// the user's configuration directory; nothing where the system names no
/// such directory.
pub fn get_xdg_config_dir() -> (dir: Option<PathBuf>)
    ensures
        dir matches Some(path) ==> exists|base: PathBuf| path == joined(base, program_name()),
{
    xdg_config_dir_in(user_config_dir())
}

/// The configuration file to read, where the user's configuration directory
/// is `base`: the file that `args_config` names, or else `eventmail.toml` in
/// the program's configuration directory.
pub fn config_file_name_in(args_config: Option<String>, base: Option<PathBuf>) -> (file: Option<
    PathBuf,
>)
    ensures
        file == config_file_name(args_config.deep_view(), base),
{
    match args_config {
        Some(name) => Some(path_from(name)),
        None => match xdg_config_dir_in(base) {
            Some(dir) => {
                let mut file = dir;
                path_push(&mut file, "eventmail.toml");
                Some(file)
            },
            None => None,
        },
    }
}

/// The configuration file to read: the file that `args_config` names, or
/// else `eventmail.toml` in the program's configuration directory. Nothing
/// where no file is named and the system names no configuration directory.
pub fn get_config_file_name(args_config: Option<String>) -> (file: Option<PathBuf>)
    ensures
        args_config matches Some(name) ==> file == Some(path_of(name@)),
        args_config is None && file is Some ==> exists|base: PathBuf|
            file == config_file_name(None, Some(base)),
{
    match args_config {
        Some(name) => config_file_name_in(Some(name), None),
        None => config_file_name_in(None, user_config_dir()),
    }
}

} // verus!
