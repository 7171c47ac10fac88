use vstd::prelude::*;
use vstd::string::{StrSliceExecFns, StringExecFns};

use crate::names::chars_of;

verus! {

/// `base` followed by `/mods`.
pub open spec fn mods_root(base: Seq<char>) -> Seq<char> {
    base + seq!['/', 'm', 'o', 'd', 's']
}

/// The address that lists the branch names: `<api>/mods`.
pub fn branch_list_url(api_address: &str) -> (r: String)
    ensures
        r@ == mods_root(api_address@),
{
    let mut r = String::from_str(api_address);
    append_mods_root(&mut r);
    r
}

/// The address of a branch: `<base>/mods/<branch>`. On the API server it gives the
/// branch's manifest; on the main server, the branch's archive.
pub fn branch_url(base: &str, branch_name: &str) -> (r: String)
    ensures
        r@ == mods_root(base@) + seq!['/'] + branch_name@,
{
    let mut r = String::from_str(base);
    append_mods_root(&mut r);
    r.append("/");
    proof {
        reveal_strlit("/");
    }
    r.append(branch_name);
    r
}

/// The address of one file of a branch: `<main>/mods/<branch>/<file>`.
pub fn mod_url(main_address: &str, branch_name: &str, file_name: &str) -> (r: String)
    ensures
        r@ == mods_root(main_address@) + seq!['/'] + branch_name@ + seq!['/'] + file_name@,
{
    let mut r = branch_url(main_address, branch_name);
    r.append("/");
    proof {
        reveal_strlit("/");
    }
    r.append(file_name);
    r
}

/// The name under which a branch's archive is stored while it is extracted: `<branch>.zip`.
pub fn bundle_file_name(branch_name: &str) -> (r: String)
    ensures
        r@ == branch_name@ + seq!['.', 'z', 'i', 'p'],
{
    let mut r = String::from_str(branch_name);
    r.append(".zip");
    proof {
        reveal_strlit(".zip");
    }
    r
}

fn append_mods_root(s: &mut String)
    ensures
        final(s)@ == mods_root(old(s)@),
{
    s.append("/mods");
    proof {
        reveal_strlit("/mods");
    }
}

/// The text after the last `/` of `s`, all of `s` when it holds none.
pub open spec fn last_segment(s: Seq<char>) -> Seq<char> {
    s.subrange(last_segment_start(s), s.len() as int)
}

/// Where the text after the last `/` of `s` begins.
pub open spec fn last_segment_start(s: Seq<char>) -> int
    decreases s.len(),
{
    if s.len() == 0 {
        0
    } else if s.last() == '/' {
        s.len() as int
    } else {
        last_segment_start(s.drop_last())
    }
}

/// The release tag at the end of a redirect location such as `.../releases/tag/1.2.3`.
pub fn release_tag(location: &str) -> (r: &str)
    ensures
        r@ == last_segment(location@),
{
    let cs = chars_of(location);
    let n = cs.len();
    let mut i: usize = n;
    assert(location@.take(n as int) =~= location@);
    while i > 0 && cs[i - 1] != '/'
        invariant
            n == location@.len(),
            cs@ == location@,
            i <= n,
            last_segment_start(location@) == last_segment_start(location@.take(i as int)),
        decreases i,
    {
        proof {
            assert(location@.take(i as int).drop_last() =~= location@.take(i - 1));
            assert(location@.take(i as int).last() == location@[i - 1]);
        }
        i = i - 1;
    }
    proof {
        if i > 0 {
            assert(location@.take(i as int).last() == '/');
        } else {
            assert(location@.take(0) =~= Seq::<char>::empty());
        }
    }
    location.substring_char(i, n)
}

} // verus!
