use vstd::prelude::*;

use crate::manifest::{mod_views, ModView, ZipFile};

verus! {

/// Percent of the archive size above which the archive is fetched instead of single files.
pub const THRESHOLD_PERCENT: u64 = 95;

/// How the wanted files are brought over.
#[derive(Clone, Copy, Debug, PartialEq, Eq, Structural)]
pub enum Strategy {
    /// One request per file.
    PerFile,
    /// One request for the branch's archive, then extraction.
    Bundle,
}

/// The strategy for files of `total` bytes in all, given the archive and the threshold.
pub open spec fn strategy_for(total: u64, zip: ZipFile, threshold_percent: u64) -> Strategy {
    if zip.is_present && total > (zip.size as int * threshold_percent as int) / 100 {
        Strategy::Bundle
    } else {
        Strategy::PerFile
    }
}

/// Chooses between fetching the archive and fetching each file.
pub fn select_strategy(total_size: u64, zip: ZipFile, threshold_percent: u64) -> (r: Strategy)
    ensures
        r == strategy_for(total_size, zip, threshold_percent),
{
    if !zip.is_present {
        return Strategy::PerFile;
    }
    let a: u128 = zip.size as u128;
    let b: u128 = threshold_percent as u128;
    assert(a * b <= u128::MAX) by (nonlinear_arith)
        requires
            a <= u64::MAX,
            b <= u64::MAX,
    ;
    let limit: u128 = (a * b) / 100;
    if total_size as u128 > limit {
        Strategy::Bundle
    } else {
        Strategy::PerFile
    }
}

/// The sum of the sizes of `mods`, as an unbounded integer.
pub open spec fn size_sum(mods: Seq<ModView>) -> int
    decreases mods.len(),
{
    if mods.len() == 0 {
        0
    } else {
        size_sum(mods.drop_last()) + mods.last().size
    }
}

/// The sum of the sizes of `mods`, held at `u64::MAX` where it would not fit.
pub open spec fn total_size_of(mods: Seq<ModView>) -> u64 {
    if size_sum(mods) > u64::MAX {
        u64::MAX
    } else {
        size_sum(mods) as u64
    }
}

/// The total size of the given files, saturating at `u64::MAX`.
pub fn total_size(mods: &Vec<crate::manifest::Mod>) -> (r: u64)
    ensures
        r == total_size_of(mod_views(mods@)),
{
    let ghost views = mod_views(mods@);
    let mut acc: u64 = 0;
    let mut i: usize = 0;
    while i < mods.len()
        invariant
            i <= mods.len(),
            views == mod_views(mods@),
            acc == total_size_of(views.take(i as int)),
        decreases mods.len() - i,
    {
        proof {
            assert(views.take(i + 1).drop_last() == views.take(i as int));
            assert(views.take(i + 1).last() == mods@[i as int]@);
            lemma_size_sum_nonneg(views.take(i as int));
        }
        acc = acc.saturating_add(mods[i].size);
        i = i + 1;
    }
    assert(views.take(mods.len() as int) == views);
    acc
}

proof fn lemma_size_sum_nonneg(mods: Seq<ModView>)
    ensures
        size_sum(mods) >= 0,
    decreases mods.len(),
{
    if mods.len() > 0 {
        lemma_size_sum_nonneg(mods.drop_last());
    }
}

/// Without an archive every total is fetched file by file.
pub proof fn lemma_absent_bundle_per_file(total: u64, zip: ZipFile, threshold_percent: u64)
    requires
        !zip.is_present,
    ensures
        strategy_for(total, zip, threshold_percent) == Strategy::PerFile,
{
}

} // verus!
