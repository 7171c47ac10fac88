use vstd::prelude::*;
use vstd::string::StringExecFns;

use dashmap::mapref::one::{Ref, RefMut};
use dashmap::DashMap;

use crate::manifest::str_views;

verus! {

/// The name of the profile that always exists.
pub const DEFAULT: &'static str = "default";

#[verifier::external_type_specification]
#[verifier::external_body]
#[verifier::reject_recursive_types(K)]
#[verifier::reject_recursive_types(V)]
#[verifier::reject_recursive_types(S)]
pub struct ExDashMap<K, V, S>(DashMap<K, V, S>);

#[verifier::external_type_specification]
#[verifier::external_body]
#[verifier::reject_recursive_types(K)]
#[verifier::reject_recursive_types(V)]
pub struct ExRef<'a, K, V>(Ref<'a, K, V>);

#[verifier::external_type_specification]
#[verifier::external_body]
#[verifier::reject_recursive_types(K)]
#[verifier::reject_recursive_types(V)]
pub struct ExRefMut<'a, K, V>(RefMut<'a, K, V>);

/// A saved set of connection settings.
#[derive(Debug)]
pub struct Profile {
    /// Address of the server.
    pub address: String,
    /// Branch last used.
    pub branch: String,
    /// The mods folder, empty when it is to be found automatically.
    pub mods_path: String,
    /// Per branch, the local files the user chose not to delete.
    pub keep_mods_in_branch: DashMap<String, Vec<String>>,
}

/// The mathematical value of a [`Profile`].
pub struct ProfileView {
    pub address: Seq<char>,
    pub branch: Seq<char>,
    pub mods_path: Seq<char>,
    pub keep_mods_in_branch: Map<Seq<char>, Seq<Seq<char>>>,
}

/// What a table of keep-lists holds: branch name to keep-list.
pub uninterp spec fn keep_lists(m: DashMap<String, Vec<String>>) -> Map<Seq<char>, Seq<Seq<char>>>;

/// What a table of profiles holds: profile name to profile.
pub uninterp spec fn profile_table(m: DashMap<String, Profile>) -> Map<Seq<char>, ProfileView>;

impl View for Profile {
    type V = ProfileView;

    open spec fn view(&self) -> ProfileView {
        ProfileView {
            address: self.address@,
            branch: self.branch@,
            mods_path: self.mods_path@,
            keep_mods_in_branch: keep_lists(self.keep_mods_in_branch),
        }
    }
}

/// Relies on DashMap::new: a new map is empty.
#[verifier::external_body]
fn new_keep_table() -> (r: DashMap<String, Vec<String>>)
    ensures
        keep_lists(r).dom() == Set::<Seq<char>>::empty(),
{
    DashMap::new()
}

/// Relies on DashMap::new: a new map is empty.
#[verifier::external_body]
fn new_profile_table() -> (r: DashMap<String, Profile>)
    ensures
        profile_table(r).dom() == Set::<Seq<char>>::empty(),
{
    DashMap::new()
}

/// Relies on DashMap::get: an entry is handed out exactly when the key is present.
#[verifier::external_body]
fn table_get<'a>(m: &'a DashMap<String, Profile>, name: &str) -> (r: Option<
    Ref<'a, String, Profile>,
>)
    ensures
        r is Some <==> profile_table(*m).contains_key(name@),
{
    m.get(name)
}

/// Relies on DashMap::get_mut: an entry is handed out exactly when the key is present.
#[verifier::external_body]
fn table_get_mut<'a>(m: &'a mut DashMap<String, Profile>, name: &str) -> (r: Option<
    RefMut<'a, String, Profile>,
>)
    ensures
        r is Some <==> profile_table(*old(m)).contains_key(name@),
{
    m.get_mut(name)
}

/// Relies on DashMap::contains_key.
#[verifier::external_body]
fn table_contains(m: &DashMap<String, Profile>, name: &str) -> (r: bool)
    ensures
        r == profile_table(*m).contains_key(name@),
{
    m.contains_key(name)
}

/// Relies on DashMap::insert: the key maps to the new value afterwards, the others keep theirs.
#[verifier::external_body]
fn table_insert(m: &mut DashMap<String, Profile>, name: String, profile: Profile)
    ensures
        profile_table(*final(m)) == profile_table(*old(m)).insert(name@, profile@),
{
    m.insert(name, profile);
}

/// Relies on DashMap::remove: the key is absent afterwards, the others keep their values.
#[verifier::external_body]
fn table_remove(m: &mut DashMap<String, Profile>, name: &str)
    ensures
        profile_table(*final(m)) == profile_table(*old(m)).remove(name@),
{
    m.remove(name);
}

/// Relies on DashMap::iter: it visits every entry once, in no set order.
#[verifier::external_body]
fn table_names(m: &DashMap<String, Profile>) -> (r: Vec<String>)
    ensures
        str_views(r@).no_duplicates(),
        str_views(r@).to_set() == profile_table(*m).dom(),
{
    m.iter().map(|e| e.key().clone()).collect()
}

impl Profile {
    /// A profile for `address` and `mods_path`, on `branch` (empty when none), keeping nothing.
    pub fn new(address: &str, mods_path: &str, branch: Option<String>) -> (r: Profile)
        ensures
            r@.address == address@,
            r@.mods_path == mods_path@,
            r@.branch == (match branch {
                Some(b) => b@,
                None => Seq::<char>::empty(),
            }),
            r@.keep_mods_in_branch == Map::<Seq<char>, Seq<Seq<char>>>::empty(),
    {
        let branch = match branch {
            Some(b) => b,
            None => String::new(),
        };
        let r = Profile {
            address: String::from_str(address),
            branch,
            mods_path: String::from_str(mods_path),
            keep_mods_in_branch: new_keep_table(),
        };
        assert(keep_lists(r.keep_mods_in_branch) =~= Map::<Seq<char>, Seq<Seq<char>>>::empty());
        r
    }
}

/// Whether a profile name is accepted; every name is.
pub fn validate_profile_name(name: &str) -> (r: bool)
    ensures
        r,
{
    true
}

/// The saved profiles and the one used last.
#[derive(Debug)]
pub struct ProfilesMap {
    /// Format version of the saved file.
    pub version: u8,
    /// Name of the profile used last.
    pub last_profile: String,
    pub profiles: DashMap<String, Profile>,
}

impl ProfilesMap {
    /// No profiles, none used last, in the current format.
    pub fn new() -> (r: ProfilesMap)
        ensures
            r.version == 1,
            r.last_profile@ == Seq::<char>::empty(),
            profile_table(r.profiles) == Map::<Seq<char>, ProfileView>::empty(),
    {
        let r = ProfilesMap {
            version: 1,
            last_profile: String::new(),
            profiles: new_profile_table(),
        };
        assert(profile_table(r.profiles) =~= Map::<Seq<char>, ProfileView>::empty());
        r
    }

    /// The profile `name`, if there is one.
    pub fn get_profile(&self, name: &str) -> (r: Option<Ref<'_, String, Profile>>)
        ensures
            r is Some <==> profile_table(self.profiles).contains_key(name@),
    {
        table_get(&self.profiles, name)
    }

    /// The profile `name`, to change, if there is one.
    pub fn get_mut_profile(&mut self, name: &str) -> (r: Option<RefMut<'_, String, Profile>>)
        ensures
            r is Some <==> profile_table(old(self).profiles).contains_key(name@),
    {
        table_get_mut(&mut self.profiles, name)
    }

    /// The name of the profile used last.
    pub fn get_last_profile_name(&self) -> (r: &str)
        ensures
            r@ == self.last_profile@,
    {
        self.last_profile.as_str()
    }

    /// Records `name` as the profile used last.
    pub fn set_last_profile_name(&mut self, name: &str)
        ensures
            final(self).last_profile@ == name@,
            final(self).version == old(self).version,
            profile_table(final(self).profiles) == profile_table(old(self).profiles),
    {
        self.last_profile = String::from_str(name);
    }

    /// Stores `profile` under `name`, replacing any profile of that name.
    pub fn new_profile(&mut self, name: &str, profile: Profile)
        ensures
            profile_table(final(self).profiles) == profile_table(old(self).profiles).insert(
                name@,
                profile@,
            ),
            final(self).last_profile == old(self).last_profile,
            final(self).version == old(self).version,
    {
        if !validate_profile_name(name) {
            return ;
        }
        table_insert(&mut self.profiles, String::from_str(name), profile);
    }

    /// Removes the profile `name`, if there is one.
    pub fn delete_profile(&mut self, name: &str)
        ensures
            profile_table(final(self).profiles) == profile_table(old(self).profiles).remove(
                name@,
            ),
            final(self).last_profile == old(self).last_profile,
            final(self).version == old(self).version,
    {
        if !validate_profile_name(name) {
            return ;
        }
        table_remove(&mut self.profiles, name);
    }

    /// Whether there is a profile `name`.
    pub fn profile_exists(&self, name: &str) -> (r: bool)
        ensures
            r == profile_table(self.profiles).contains_key(name@),
    {
        table_contains(&self.profiles, name)
    }

    /// The names of all profiles, each once, in no set order.
    pub fn get_profile_names(&self) -> (r: Vec<String>)
        ensures
            str_views(r@).no_duplicates(),
            str_views(r@).to_set() == profile_table(self.profiles).dom(),
    {
        table_names(&self.profiles)
    }
}

} // verus!
