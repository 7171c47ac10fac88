use vstd::prelude::*;

use crate::manifest::{contains_name, mod_views, names_of, str_views, Mod, ModView};

verus! {

/// The remote entries whose names are absent from `local`, in remote order.
pub open spec fn download_set(remote: Seq<ModView>, local: Seq<Seq<char>>) -> Seq<ModView>
    decreases remote.len(),
{
    if remote.len() == 0 {
        Seq::empty()
    } else {
        let rest = download_set(remote.drop_last(), local);
        if local.contains(remote.last().name) {
            rest
        } else {
            rest.push(remote.last())
        }
    }
}

/// The local names that no remote entry carries, in local order.
pub open spec fn delete_set(remote_names: Seq<Seq<char>>, local: Seq<Seq<char>>) -> Seq<Seq<char>>
    decreases local.len(),
{
    if local.len() == 0 {
        Seq::empty()
    } else {
        let rest = delete_set(remote_names, local.drop_last());
        if remote_names.contains(local.last()) {
            rest
        } else {
            rest.push(local.last())
        }
    }
}

/// Every remote entry whose name is not among the local files, in remote order.
pub fn get_mods_to_download(remote_mods: &Vec<Mod>, local_mods: &Vec<String>) -> (r: Vec<Mod>)
    ensures
        mod_views(r@) == download_set(mod_views(remote_mods@), str_views(local_mods@)),
{
    let ghost remote = mod_views(remote_mods@);
    let ghost local = str_views(local_mods@);
    let mut out: Vec<Mod> = Vec::new();
    let mut i: usize = 0;
    while i < remote_mods.len()
        invariant
            i <= remote_mods.len(),
            remote == mod_views(remote_mods@),
            local == str_views(local_mods@),
            mod_views(out@) == download_set(remote.take(i as int), local),
        decreases remote_mods.len() - i,
    {
        let m = &remote_mods[i];
        assert(remote.take(i + 1).drop_last() == remote.take(i as int));
        assert(remote.take(i + 1).last() == m@);
        if !contains_name(local_mods, &m.name) {
            let c = m.duplicate();
            let ghost before = out@;
            out.push(c);
            assert(mod_views(out@) =~= mod_views(before).push(c@));
        }
        i = i + 1;
    }
    assert(remote.take(remote_mods.len() as int) == remote);
    out
}

/// Every local file name that no remote entry carries, in local order.
pub fn get_mods_to_delete(remote_mods: &Vec<Mod>, local_mods: &Vec<String>) -> (r: Vec<String>)
    ensures
        str_views(r@) == delete_set(names_of(mod_views(remote_mods@)), str_views(local_mods@)),
{
    let ghost remote_names = names_of(mod_views(remote_mods@));
    let ghost local = str_views(local_mods@);
    let names = remote_names_of(remote_mods);
    let mut out: Vec<String> = Vec::new();
    let mut i: usize = 0;
    while i < local_mods.len()
        invariant
            i <= local_mods.len(),
            local == str_views(local_mods@),
            str_views(names@) == remote_names,
            str_views(out@) == delete_set(remote_names, local.take(i as int)),
        decreases local_mods.len() - i,
    {
        let n = &local_mods[i];
        assert(local.take(i + 1).drop_last() == local.take(i as int));
        assert(local.take(i + 1).last() == n@);
        if !contains_name(&names, n) {
            let c = n.clone();
            let ghost before = out@;
            out.push(c);
            assert(str_views(out@) =~= str_views(before).push(c@));
        }
        i = i + 1;
    }
    assert(local.take(local_mods.len() as int) == local);
    out
}

/// The names of the remote entries, in order.
fn remote_names_of(remote_mods: &Vec<Mod>) -> (r: Vec<String>)
    ensures
        str_views(r@) == names_of(mod_views(remote_mods@)),
{
    let mut out: Vec<String> = Vec::new();
    let mut i: usize = 0;
    while i < remote_mods.len()
        invariant
            i <= remote_mods.len(),
            str_views(out@) == names_of(mod_views(remote_mods@)).take(i as int),
        decreases remote_mods.len() - i,
    {
        let n = remote_mods[i].name.clone();
        let ghost before = out@;
        out.push(n);
        assert(str_views(out@) =~= str_views(before).push(n@));
        assert(names_of(mod_views(remote_mods@))[i as int] == n@);
        assert(names_of(mod_views(remote_mods@)).take(i + 1) =~= names_of(
            mod_views(remote_mods@),
        ).take(i as int).push(n@));
        i = i + 1;
    }
    assert(names_of(mod_views(remote_mods@)).take(remote_mods.len() as int) =~= names_of(
        mod_views(remote_mods@),
    ));
    out
}

/// An entry is to be downloaded exactly when it is a remote entry whose name is not local.
pub proof fn lemma_download_set_members(remote: Seq<ModView>, local: Seq<Seq<char>>, m: ModView)
    ensures
        download_set(remote, local).contains(m) <==> (remote.contains(m) && !local.contains(
            m.name,
        )),
    decreases remote.len(),
{
    if remote.len() > 0 {
        let init = remote.drop_last();
        let x = remote.last();
        lemma_download_set_members(init, local, m);
        lemma_push_contains(init, x, m);
        assert(remote == init.push(x));
        let rest = download_set(init, local);
        lemma_push_contains(rest, x, m);
    }
}

/// A sequence with one more element holds what it held before and that element.
proof fn lemma_push_contains<A>(s: Seq<A>, x: A, y: A)
    ensures
        s.push(x).contains(y) <==> (s.contains(y) || y == x),
{
    if s.contains(y) {
        let k = choose|k: int| 0 <= k < s.len() && s[k] == y;
        assert(s.push(x)[k] == y);
    }
    if y == x {
        assert(s.push(x)[s.len() as int] == y);
    }
    if s.push(x).contains(y) && y != x {
        let k = choose|k: int| 0 <= k < s.push(x).len() && s.push(x)[k] == y;
        assert(k < s.len());
        assert(s[k] == y);
    }
}

/// A name is to be deleted exactly when it is local and no remote entry carries it.
pub proof fn lemma_delete_set_members(
    remote_names: Seq<Seq<char>>,
    local: Seq<Seq<char>>,
    n: Seq<char>,
)
    ensures
        delete_set(remote_names, local).contains(n) <==> (local.contains(n)
            && !remote_names.contains(n)),
    decreases local.len(),
{
    if local.len() > 0 {
        let init = local.drop_last();
        let x = local.last();
        lemma_delete_set_members(remote_names, init, n);
        lemma_push_contains(init, x, n);
        assert(local == init.push(x));
        let rest = delete_set(remote_names, init);
        lemma_push_contains(rest, x, n);
    }
}

/// No name is both to be downloaded and to be deleted.
pub proof fn lemma_plan_disjoint(remote: Seq<ModView>, local: Seq<Seq<char>>, n: Seq<char>)
    ensures
        !(names_of(download_set(remote, local)).contains(n) && delete_set(
            names_of(remote),
            local,
        ).contains(n)),
{
    let down = download_set(remote, local);
    if names_of(down).contains(n) {
        let k = choose|k: int| 0 <= k < names_of(down).len() && names_of(down)[k] == n;
        assert(down.contains(down[k]));
        lemma_download_set_members(remote, local, down[k]);
        lemma_delete_set_members(names_of(remote), local, n);
    }
}

/// With no remote entries nothing is downloaded and every local file is deleted.
pub proof fn lemma_empty_remote(local: Seq<Seq<char>>)
    ensures
        download_set(Seq::empty(), local) == Seq::<ModView>::empty(),
        delete_set(names_of(Seq::<ModView>::empty()), local) == local,
    decreases local.len(),
{
    if local.len() > 0 {
        lemma_empty_remote(local.drop_last());
        assert(!names_of(Seq::<ModView>::empty()).contains(local.last()));
        assert(local.drop_last().push(local.last()) =~= local);
    }
}

/// With no local files every remote entry is downloaded and nothing is deleted.
pub proof fn lemma_empty_local(remote: Seq<ModView>)
    ensures
        download_set(remote, Seq::empty()) == remote,
        delete_set(names_of(remote), Seq::empty()) == Seq::<Seq<char>>::empty(),
    decreases remote.len(),
{
    if remote.len() > 0 {
        lemma_empty_local(remote.drop_last());
        assert(remote.drop_last().push(remote.last()) =~= remote);
    }
}

} // verus!
