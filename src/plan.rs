use vstd::prelude::*;

use crate::differ::{delete_set, download_set, get_mods_to_delete, get_mods_to_download};
use crate::manifest::{contains_name, mod_views, names_of, str_views, Mod, ModView};

verus! {

/// One name that the user can tick or untick.
#[derive(Clone, Debug)]
pub struct PlanItem {
    pub name: String,
    /// Whether the user wants the action taken on this name.
    pub checked: bool,
    /// Whether the user may not untick it.
    pub required: bool,
}

/// The mathematical value of a [`PlanItem`].
pub struct PlanItemView {
    pub name: Seq<char>,
    pub checked: bool,
    pub required: bool,
}

impl View for PlanItem {
    type V = PlanItemView;

    open spec fn view(&self) -> PlanItemView {
        PlanItemView { name: self.name@, checked: self.checked, required: self.required }
    }
}

/// What a sync cycle is to do: the files to fetch and the local files to delete.
#[derive(Clone, Debug)]
pub struct SyncPlan {
    pub to_download: Vec<PlanItem>,
    pub to_delete: Vec<PlanItem>,
}

/// The mathematical value of a [`SyncPlan`].
pub struct SyncPlanView {
    pub to_download: Seq<PlanItemView>,
    pub to_delete: Seq<PlanItemView>,
}

impl View for SyncPlan {
    type V = SyncPlanView;

    open spec fn view(&self) -> SyncPlanView {
        SyncPlanView { to_download: item_views(self.to_download@), to_delete: item_views(self.to_delete@) }
    }
}

/// Why a change to a plan was refused.
#[derive(Clone, Copy, Debug, PartialEq, Eq, Structural)]
pub enum PlanError {
    /// The plan holds no item of that name.
    UnknownName,
    /// A required file cannot be left out.
    RequiredMod,
}

/// The views of a sequence of items.
pub open spec fn item_views(items: Seq<PlanItem>) -> Seq<PlanItemView> {
    items.map_values(|it: PlanItem| it@)
}

/// The names of a sequence of items, in order.
pub open spec fn item_names(items: Seq<PlanItemView>) -> Seq<Seq<char>> {
    items.map_values(|it: PlanItemView| it.name)
}

/// Download items for remote entries: an entry is ticked, and required, unless optional.
pub open spec fn download_items(mods: Seq<ModView>) -> Seq<PlanItemView> {
    mods.map_values(
        |m: ModView| PlanItemView { name: m.name, checked: !m.is_optional, required: !m.is_optional },
    )
}

/// Delete items for local names: a name is ticked unless the keep-list holds it.
pub open spec fn delete_items(names: Seq<Seq<char>>, keep: Seq<Seq<char>>) -> Seq<PlanItemView> {
    names.map_values(|n: Seq<char>| PlanItemView { name: n, checked: !keep.contains(n), required: false })
}

/// The plan for a remote manifest, a local listing and a keep-list.
pub open spec fn plan_for(
    remote: Seq<ModView>,
    local: Seq<Seq<char>>,
    keep: Seq<Seq<char>>,
) -> SyncPlanView {
    SyncPlanView {
        to_download: download_items(download_set(remote, local)),
        to_delete: delete_items(delete_set(names_of(remote), local), keep),
    }
}

/// `items` with every item named `name` ticked as `checked`.
pub open spec fn with_checked(items: Seq<PlanItemView>, name: Seq<char>, checked: bool) -> Seq<
    PlanItemView,
> {
    items.map_values(
        |it: PlanItemView|
            if it.name == name {
                PlanItemView { checked, ..it }
            } else {
                it
            },
    )
}

/// Whether some item named `name` is required.
pub open spec fn is_required(items: Seq<PlanItemView>, name: Seq<char>) -> bool {
    exists|i: int| 0 <= i < items.len() && #[trigger] items[i].name == name && items[i].required
}

/// The names of the ticked items, in order.
pub open spec fn checked_names(items: Seq<PlanItemView>) -> Seq<Seq<char>>
    decreases items.len(),
{
    if items.len() == 0 {
        Seq::empty()
    } else {
        let rest = checked_names(items.drop_last());
        if items.last().checked {
            rest.push(items.last().name)
        } else {
            rest
        }
    }
}

/// The remote entries whose names are among `names`, in remote order.
pub open spec fn entries_named(remote: Seq<ModView>, names: Seq<Seq<char>>) -> Seq<ModView>
    decreases remote.len(),
{
    if remote.len() == 0 {
        Seq::empty()
    } else {
        let rest = entries_named(remote.drop_last(), names);
        if names.contains(remote.last().name) {
            rest.push(remote.last())
        } else {
            rest
        }
    }
}

/// Builds the plan: every remote entry missing locally is to be fetched, ticked unless
/// optional; every local file that no remote entry carries is to be deleted, ticked unless
/// the keep-list holds it.
pub fn build_plan(remote_mods: &Vec<Mod>, local_mods: &Vec<String>, keep: &Vec<String>) -> (r:
    SyncPlan)
    ensures
        r@ == plan_for(mod_views(remote_mods@), str_views(local_mods@), str_views(keep@)),
{
    let downloads = get_mods_to_download(remote_mods, local_mods);
    let deletes = get_mods_to_delete(remote_mods, local_mods);
    let mut to_download: Vec<PlanItem> = Vec::new();
    let mut i: usize = 0;
    while i < downloads.len()
        invariant
            i <= downloads.len(),
            item_views(to_download@) == download_items(mod_views(downloads@)).take(i as int),
        decreases downloads.len() - i,
    {
        let m = &downloads[i];
        let item = PlanItem { name: m.name.clone(), checked: !m.is_optional, required: !m.is_optional };
        let ghost before = to_download@;
        to_download.push(item);
        assert(item_views(to_download@) =~= item_views(before).push(item@));
        assert(download_items(mod_views(downloads@)).take(i + 1) =~= download_items(
            mod_views(downloads@),
        ).take(i as int).push(item@));
        i = i + 1;
    }
    assert(download_items(mod_views(downloads@)).take(downloads.len() as int) =~= download_items(
        mod_views(downloads@),
    ));
    let mut to_delete: Vec<PlanItem> = Vec::new();
    let mut j: usize = 0;
    while j < deletes.len()
        invariant
            j <= deletes.len(),
            item_views(to_delete@) == delete_items(str_views(deletes@), str_views(keep@)).take(
                j as int,
            ),
        decreases deletes.len() - j,
    {
        let n = &deletes[j];
        let kept = contains_name(keep, n);
        let item = PlanItem { name: n.clone(), checked: !kept, required: false };
        let ghost before = to_delete@;
        to_delete.push(item);
        assert(item_views(to_delete@) =~= item_views(before).push(item@));
        assert(delete_items(str_views(deletes@), str_views(keep@)).take(j + 1) =~= delete_items(
            str_views(deletes@),
            str_views(keep@),
        ).take(j as int).push(item@));
        j = j + 1;
    }
    assert(delete_items(str_views(deletes@), str_views(keep@)).take(deletes.len() as int)
        =~= delete_items(str_views(deletes@), str_views(keep@)));
    SyncPlan { to_download, to_delete }
}

/// Looks up `name` among `items`: whether it is there, and whether one such item is required.
fn find_item(items: &Vec<PlanItem>, name: &String) -> (r: (bool, bool))
    ensures
        r.0 == item_names(item_views(items@)).contains(name@),
        r.1 == is_required(item_views(items@), name@),
{
    let ghost v = item_views(items@);
    let mut found = false;
    let mut required = false;
    let mut i: usize = 0;
    while i < items.len()
        invariant
            i <= items.len(),
            v == item_views(items@),
            found == exists|j: int| 0 <= j < i && #[trigger] v[j].name == name@,
            required == exists|j: int| 0 <= j < i && #[trigger] v[j].name == name@ && v[j].required,
        decreases items.len() - i,
    {
        assert(v[i as int] == items@[i as int]@);
        let is_match = items[i].name == *name;
        let ghost prev_found = found;
        let ghost prev_required = required;
        if is_match {
            found = true;
            if items[i].required {
                required = true;
            }
        }
        proof {
            let k = i as int;
            if is_match {
                assert(v[k].name == name@);
            }
            if !prev_found && !is_match {
                assert forall|j: int| 0 <= j < k + 1 implies #[trigger] v[j].name != name@ by {
                    if j < k {
                        assert(!(0 <= j < k && v[j].name == name@));
                    }
                }
            }
            if !prev_required && !(is_match && v[k].required) {
                assert forall|j: int| 0 <= j < k + 1 implies !(#[trigger] v[j].name == name@
                    && v[j].required) by {
                    if j < k {
                        assert(!(0 <= j < k && v[j].name == name@ && v[j].required));
                    }
                }
            }
        }
        i = i + 1;
    }
    proof {
        if found {
            let j = choose|j: int| 0 <= j < items.len() && #[trigger] v[j].name == name@;
            assert(item_names(v)[j] == name@);
        }
        if item_names(v).contains(name@) {
            let j = choose|j: int| 0 <= j < item_names(v).len() && item_names(v)[j] == name@;
            assert(v[j].name == name@);
        }
    }
    (found, required)
}

/// `items` with every item named `name` ticked as `checked`.
fn tick(items: &Vec<PlanItem>, name: &String, checked: bool) -> (r: Vec<PlanItem>)
    ensures
        item_views(r@) == with_checked(item_views(items@), name@, checked),
{
    let ghost target = with_checked(item_views(items@), name@, checked);
    let mut out: Vec<PlanItem> = Vec::new();
    let mut i: usize = 0;
    while i < items.len()
        invariant
            i <= items.len(),
            target == with_checked(item_views(items@), name@, checked),
            item_views(out@) == target.take(i as int),
        decreases items.len() - i,
    {
        let it = &items[i];
        let c = if it.name == *name { checked } else { it.checked };
        let item = PlanItem { name: it.name.clone(), checked: c, required: it.required };
        let ghost before = out@;
        out.push(item);
        assert(item_views(out@) =~= item_views(before).push(item@));
        assert(target.take(i + 1) =~= target.take(i as int).push(item@));
        i = i + 1;
    }
    assert(target.take(items.len() as int) =~= target);
    out
}

impl SyncPlan {
    /// Ticks or unticks the file `name` for download. Unticking a required file is refused.
    pub fn set_download_checked(&mut self, name: &String, checked: bool) -> (r: Result<(), PlanError>)
        ensures
            !item_names(old(self)@.to_download).contains(name@) ==> r == Err::<(), PlanError>(
                PlanError::UnknownName,
            ),
            item_names(old(self)@.to_download).contains(name@) && !checked && is_required(
                old(self)@.to_download,
                name@,
            ) ==> r == Err::<(), PlanError>(PlanError::RequiredMod),
            r is Err ==> final(self)@ == old(self)@,
            r is Ok ==> final(self)@ == (SyncPlanView {
                to_download: with_checked(old(self)@.to_download, name@, checked),
                ..old(self)@
            }),
            r is Ok <==> item_names(old(self)@.to_download).contains(name@) && (checked
                || !is_required(old(self)@.to_download, name@)),
    {
        let (found, required) = find_item(&self.to_download, name);
        if !found {
            return Err(PlanError::UnknownName);
        }
        if !checked && required {
            return Err(PlanError::RequiredMod);
        }
        self.to_download = tick(&self.to_download, name, checked);
        Ok(())
    }

    /// Ticks or unticks the local file `name` for deletion.
    pub fn set_delete_checked(&mut self, name: &String, checked: bool) -> (r: Result<(), PlanError>)
        ensures
            !item_names(old(self)@.to_delete).contains(name@) ==> r == Err::<(), PlanError>(
                PlanError::UnknownName,
            ) && final(self)@ == old(self)@,
            item_names(old(self)@.to_delete).contains(name@) ==> r is Ok && final(self)@ == (
            SyncPlanView {
                to_delete: with_checked(old(self)@.to_delete, name@, checked),
                ..old(self)@
            }),
    {
        let (found, _) = find_item(&self.to_delete, name);
        if !found {
            return Err(PlanError::UnknownName);
        }
        self.to_delete = tick(&self.to_delete, name, checked);
        Ok(())
    }
}

/// The names of the ticked items, in order.
pub fn ticked_names(items: &Vec<PlanItem>) -> (r: Vec<String>)
    ensures
        str_views(r@) == checked_names(item_views(items@)),
{
    let ghost v = item_views(items@);
    let mut out: Vec<String> = Vec::new();
    let mut i: usize = 0;
    while i < items.len()
        invariant
            i <= items.len(),
            v == item_views(items@),
            str_views(out@) == checked_names(v.take(i as int)),
        decreases items.len() - i,
    {
        assert(v.take(i + 1).drop_last() == v.take(i as int));
        assert(v.take(i + 1).last() == items@[i as int]@);
        if items[i].checked {
            let c = items[i].name.clone();
            let ghost before = out@;
            out.push(c);
            assert(str_views(out@) =~= str_views(before).push(c@));
        }
        i = i + 1;
    }
    assert(v.take(items.len() as int) == v);
    out
}

/// The local files the user agreed to delete, in plan order.
pub fn confirmed_deletions(plan: &SyncPlan) -> (r: Vec<String>)
    ensures
        str_views(r@) == checked_names(plan@.to_delete),
{
    ticked_names(&plan.to_delete)
}

/// The remote entries the user wants fetched, in remote order.
pub fn wanted_mods(remote_mods: &Vec<Mod>, plan: &SyncPlan) -> (r: Vec<Mod>)
    ensures
        mod_views(r@) == entries_named(mod_views(remote_mods@), checked_names(plan@.to_download)),
{
    let names = ticked_names(&plan.to_download);
    let ghost remote = mod_views(remote_mods@);
    let ghost wanted = checked_names(plan@.to_download);
    let mut out: Vec<Mod> = Vec::new();
    let mut i: usize = 0;
    while i < remote_mods.len()
        invariant
            i <= remote_mods.len(),
            remote == mod_views(remote_mods@),
            str_views(names@) == wanted,
            mod_views(out@) == entries_named(remote.take(i as int), wanted),
        decreases remote_mods.len() - i,
    {
        let m = &remote_mods[i];
        assert(remote.take(i + 1).drop_last() == remote.take(i as int));
        assert(remote.take(i + 1).last() == m@);
        if contains_name(&names, &m.name) {
            let c = m.duplicate();
            let ghost before = out@;
            out.push(c);
            assert(mod_views(out@) =~= mod_views(before).push(c@));
        }
        i = i + 1;
    }
    assert(remote.take(remote_mods.len() as int) == remote);
    out
}

/// Whether `k` is the first position of `x` in `s`.
pub open spec fn is_first_index(s: Seq<Seq<char>>, x: Seq<char>, k: int) -> bool {
    0 <= k < s.len() && s[k] == x && forall|j: int| 0 <= j < k ==> s[j] != x
}

/// The keep-list after the user ticks (`delete_checked`) or unticks a local file for
/// deletion: ticking takes the first occurrence of the name out, moving the last name into
/// its place; unticking appends the name when it is not there yet.
pub open spec fn keep_after(keep: Seq<Seq<char>>, name: Seq<char>, delete_checked: bool) -> Seq<
    Seq<char>,
> {
    if keep.contains(name) {
        if delete_checked {
            let k = choose|k: int| is_first_index(keep, name, k);
            keep.update(k, keep.last()).drop_last()
        } else {
            keep
        }
    } else if delete_checked {
        keep
    } else {
        keep.push(name)
    }
}

/// Updates the keep-list of a branch after the user ticks or unticks `name` for deletion.
pub fn update_keep_list(keep: &mut Vec<String>, name: &String, delete_checked: bool)
    ensures
        str_views(final(keep)@) == keep_after(str_views(old(keep)@), name@, delete_checked),
{
    let ghost v = str_views(keep@);
    let mut i: usize = 0;
    while i < keep.len()
        invariant
            i <= keep.len(),
            v == str_views(keep@),
            forall|j: int| 0 <= j < i ==> v[j] != name@,
        ensures
            i <= keep.len(),
            forall|j: int| 0 <= j < i ==> v[j] != name@,
            i < keep.len() ==> v[i as int] == name@,
        decreases keep.len() - i,
    {
        if keep[i] == *name {
            break;
        }
        i = i + 1;
    }
    if i < keep.len() {
        proof {
            assert(v[i as int] == name@);
            assert(is_first_index(v, name@, i as int));
            let k = choose|k: int| is_first_index(v, name@, k);
            if k < i {
                assert(v[k] != name@);
            }
            if k > i {
                assert(v[i as int] != name@);
            }
            assert(v.contains(name@));
        }
        if delete_checked {
            let ghost before = keep@;
            keep.swap_remove(i);
            assert(str_views(keep@) =~= v.update(i as int, v.last()).drop_last());
        }
    } else {
        proof {
            if v.contains(name@) {
                let k = choose|k: int| 0 <= k < v.len() && v[k] == name@;
                assert(v[k] != name@);
            }
        }
        if !delete_checked {
            let ghost before = keep@;
            keep.push(name.clone());
            assert(str_views(keep@) =~= v.push(name@));
        }
    }
}

} // verus!
