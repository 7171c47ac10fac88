use vstd::prelude::*;

use crate::manifest::str_views;
use crate::names::{ends_in_mods, has_jar_extension, is_jar_name, names_mods_dir};

verus! {

/// One entry of a directory listing, as read from the file system.
#[derive(Clone, Debug)]
pub struct LocalEntry {
    /// The entry's file name.
    pub name: String,
    /// Whether the entry is a regular file.
    pub is_file: bool,
}

/// The names of the listed regular files whose extension is `jar` in any case, in order.
pub open spec fn tracked_names(entries: Seq<LocalEntry>) -> Seq<Seq<char>>
    decreases entries.len(),
{
    if entries.len() == 0 {
        Seq::empty()
    } else {
        let rest = tracked_names(entries.drop_last());
        let e = entries.last();
        if e.is_file && has_jar_extension(e.name@) {
            rest.push(e.name@)
        } else {
            rest
        }
    }
}

/// The names of the installed files among a directory listing: regular files with the
/// extension `jar`, in any case, in listing order.
pub fn get_local_mods(entries: &Vec<LocalEntry>) -> (r: Vec<String>)
    ensures
        str_views(r@) == tracked_names(entries@),
{
    let mut out: Vec<String> = Vec::new();
    let mut i: usize = 0;
    while i < entries.len()
        invariant
            i <= entries.len(),
            str_views(out@) == tracked_names(entries@.take(i as int)),
        decreases entries.len() - i,
    {
        let e = &entries[i];
        assert(entries@.take(i + 1).drop_last() == entries@.take(i as int));
        assert(entries@.take(i + 1).last() == *e);
        if e.is_file && is_jar_name(e.name.as_str()) {
            let c = e.name.clone();
            let ghost before = out@;
            out.push(c);
            assert(str_views(out@) =~= str_views(before).push(c@));
        }
        i = i + 1;
    }
    assert(entries@.take(entries.len() as int) == entries@);
    out
}

/// Whether `path` can be the mods folder: it is a directory (`is_dir`, as the file system
/// says) and its last component is `mods`. `windows_paths` tells whether paths follow
/// Windows rules, where a backslash separates components too.
pub fn is_mods_folder(path: &str, is_dir: bool, windows_paths: bool) -> (r: bool)
    ensures
        r == (is_dir && names_mods_dir(path@, windows_paths)),
{
    ends_in_mods(path, windows_paths) && is_dir
}

} // verus!
