use vstd::prelude::*;

use crate::extract::{ExtractError, ExtractPhase};
use crate::manifest::{mod_views, names_of, str_views, BranchInfo, Mod};
use crate::plan::{
    build_plan, checked_names, confirmed_deletions, entries_named, plan_for, wanted_mods,
    SyncPlan,
};
use crate::strategy::{select_strategy, strategy_for, total_size, total_size_of, Strategy};
use crate::transfer::{TransferError, TransferPhase};

verus! {

/// Where a sync cycle stands.
#[derive(Clone, Copy, Debug, PartialEq, Eq, Structural)]
pub enum CyclePhase {
    /// No cycle runs.
    Idle,
    /// A plan was made; the user may change what is ticked before the transfer is chosen.
    Deciding,
    /// Files are being fetched one by one.
    FetchingFiles,
    /// The branch's archive is being fetched.
    FetchingBundle,
    /// The fetched archive is being extracted.
    Extracting,
    /// The transfer is over; the outcome waits to be collected.
    Finalizing,
}

/// Why a sync cycle failed or a request to it was refused.
#[derive(Clone, Copy, Debug, PartialEq, Eq, Structural)]
pub enum SyncError {
    /// A cycle already runs against the directory.
    Busy,
    /// The request does not fit the phase the cycle is in.
    OutOfOrder,
    /// A file or the archive could not be fetched.
    Transfer(TransferError),
    /// The archive could not be extracted.
    Extract(ExtractError),
}

/// How a sync cycle ended.
#[derive(Clone, Copy, Debug, PartialEq, Eq, Structural)]
pub enum CycleOutcome {
    Completed,
    Cancelled,
    Failed(SyncError),
}

/// What the caller is to transfer, chosen from a plan.
pub struct Dispatch {
    /// How the files are brought over.
    pub strategy: Strategy,
    /// The remote entries the user wants, in remote order.
    pub files: Vec<Mod>,
    /// Their names, which the extraction of an archive is restricted to.
    pub wanted: Vec<String>,
    /// Their total size, saturating at `u64::MAX`.
    pub total_size: u64,
    /// The local files the user agreed to delete.
    pub deletions: Vec<String>,
}

/// The state of the sync engine for one local directory.
pub struct SyncCycle {
    pub phase: CyclePhase,
    /// The files to fetch one by one.
    pub files: Vec<Mod>,
    /// The position in `files` of the next file to fetch.
    pub next: usize,
    /// How the cycle ended, once it has.
    pub outcome: Option<CycleOutcome>,
}

/// The outcome of a transfer that ended in `phase`, if it ended unsuccessfully.
pub open spec fn transfer_stop(phase: TransferPhase) -> Option<CycleOutcome> {
    match phase {
        TransferPhase::Cancelled => Some(CycleOutcome::Cancelled),
        TransferPhase::Failed(e) => Some(CycleOutcome::Failed(SyncError::Transfer(e))),
        _ => None,
    }
}

/// The outcome of an extraction that ended in `phase`.
pub open spec fn extract_outcome(phase: ExtractPhase) -> CycleOutcome {
    match phase {
        ExtractPhase::Cancelled => CycleOutcome::Cancelled,
        ExtractPhase::Failed(e) => CycleOutcome::Failed(SyncError::Extract(e)),
        _ => CycleOutcome::Completed,
    }
}

/// The names of the given entries, as strings, in order.
fn names_vec(mods: &Vec<Mod>) -> (r: Vec<String>)
    ensures
        str_views(r@) == names_of(mod_views(mods@)),
{
    let mut out: Vec<String> = Vec::new();
    let mut i: usize = 0;
    while i < mods.len()
        invariant
            i <= mods.len(),
            str_views(out@) == names_of(mod_views(mods@)).take(i as int),
        decreases mods.len() - i,
    {
        let n = mods[i].name.clone();
        let ghost before = out@;
        out.push(n);
        assert(str_views(out@) =~= str_views(before).push(n@));
        assert(names_of(mod_views(mods@)).take(i + 1) =~= names_of(mod_views(mods@)).take(
            i as int,
        ).push(n@));
        i = i + 1;
    }
    assert(names_of(mod_views(mods@)).take(mods.len() as int) =~= names_of(mod_views(mods@)));
    out
}

impl SyncCycle {
    /// While files are fetched one by one, the next one is in the queue.
    pub open spec fn wf(&self) -> bool {
        self.phase == CyclePhase::FetchingFiles ==> self.next < self.files.len()
    }

    /// An idle engine.
    pub fn new() -> (r: SyncCycle)
        ensures
            r.wf(),
            r.phase == CyclePhase::Idle,
            r.files@.len() == 0,
            r.next == 0,
            r.outcome is None,
    {
        SyncCycle { phase: CyclePhase::Idle, files: Vec::new(), next: 0, outcome: None }
    }

    /// Starts a cycle: compares the manifest with the local files and returns the plan.
    /// A cycle that is already running is not interrupted: the request is refused.
    pub fn begin(&mut self, branch: &BranchInfo, local_mods: &Vec<String>, keep: &Vec<String>) -> (r:
        Result<SyncPlan, SyncError>)
        ensures
            old(self).wf() ==> final(self).wf(),
            old(self).phase != CyclePhase::Idle ==> r == Err::<SyncPlan, SyncError>(SyncError::Busy)
                && final(self).phase == old(self).phase && final(self).files@ == old(self).files@
                && final(self).next == old(self).next && final(self).outcome == old(self).outcome,
            old(self).phase == CyclePhase::Idle ==> r is Ok && final(self).phase
                == CyclePhase::Deciding && final(self).outcome is None && r->Ok_0@ == plan_for(
                mod_views(branch.mods@),
                str_views(local_mods@),
                str_views(keep@),
            ),
    {
        if self.phase != CyclePhase::Idle {
            return Err(SyncError::Busy);
        }
        let plan = build_plan(&branch.mods, local_mods, keep);
        self.phase = CyclePhase::Deciding;
        self.outcome = None;
        Ok(plan)
    }

    /// Chooses how to transfer what `plan` ticks and starts the transfer.
    pub fn dispatch(&mut self, branch: &BranchInfo, plan: &SyncPlan, threshold_percent: u64) -> (r:
        Result<Dispatch, SyncError>)
        ensures
            old(self).wf() ==> final(self).wf(),
            old(self).phase != CyclePhase::Deciding ==> r == Err::<Dispatch, SyncError>(
                SyncError::OutOfOrder,
            ) && final(self).phase == old(self).phase && final(self).files@ == old(self).files@
                && final(self).next == old(self).next && final(self).outcome == old(self).outcome,
            old(self).phase == CyclePhase::Deciding ==> r is Ok && ({
                let d = r->Ok_0;
                let files = entries_named(mod_views(branch.mods@), checked_names(plan@.to_download));
                &&& mod_views(d.files@) == files
                &&& str_views(d.wanted@) == names_of(files)
                &&& d.total_size == total_size_of(files)
                &&& d.strategy == strategy_for(d.total_size, branch.zip, threshold_percent)
                &&& str_views(d.deletions@) == checked_names(plan@.to_delete)
                &&& final(self).next == 0
                &&& mod_views(final(self).files@) == files
                &&& final(self).phase == (if d.strategy == Strategy::Bundle {
                    CyclePhase::FetchingBundle
                } else if files.len() == 0 {
                    CyclePhase::Finalizing
                } else {
                    CyclePhase::FetchingFiles
                })
                &&& final(self).outcome == (if d.strategy == Strategy::PerFile && files.len() == 0 {
                    Some(CycleOutcome::Completed)
                } else {
                    None
                })
            }),
    {
        if self.phase != CyclePhase::Deciding {
            return Err(SyncError::OutOfOrder);
        }
        let files = wanted_mods(&branch.mods, plan);
        let total = total_size(&files);
        let strategy = select_strategy(total, branch.zip, threshold_percent);
        let wanted = names_vec(&files);
        let deletions = confirmed_deletions(plan);
        let queue = wanted_mods(&branch.mods, plan);
        self.next = 0;
        if strategy == Strategy::Bundle {
            self.phase = CyclePhase::FetchingBundle;
            self.outcome = None;
        } else if queue.len() == 0 {
            self.phase = CyclePhase::Finalizing;
            self.outcome = Some(CycleOutcome::Completed);
        } else {
            self.phase = CyclePhase::FetchingFiles;
            self.outcome = None;
        }
        self.files = queue;
        Ok(Dispatch { strategy, files, wanted, total_size: total, deletions })
    }

    /// The position of the next file to fetch, while files are fetched one by one.
    pub fn next_file(&self) -> (r: Option<usize>)
        ensures
            r == (if self.phase == CyclePhase::FetchingFiles && self.next < self.files.len() {
                Some(self.next)
            } else {
                None
            }),
    {
        if self.phase == CyclePhase::FetchingFiles && self.next < self.files.len() {
            Some(self.next)
        } else {
            None
        }
    }

    /// Records how the transfer of the current file ended. A completed file moves the queue
    /// on; a cancelled or failed one ends the cycle, and the files after it are not fetched.
    pub fn file_finished(&mut self, phase: TransferPhase) -> (r: Result<(), SyncError>)
        requires
            old(self).wf(),
        ensures
            final(self).wf(),
            old(self).phase != CyclePhase::FetchingFiles ==> r == Err::<(), SyncError>(
                SyncError::OutOfOrder,
            ) && final(self).phase == old(self).phase && final(self).next == old(self).next
                && final(self).outcome == old(self).outcome,
            final(self).files@ == old(self).files@,
            old(self).phase == CyclePhase::FetchingFiles ==> r is Ok && match transfer_stop(phase) {
                Some(o) => final(self).phase == CyclePhase::Finalizing && final(self).outcome
                    == Some(o) && final(self).next == old(self).next,
                None => {
                    let n = if phase == TransferPhase::Completed {
                        old(self).next + 1
                    } else {
                        old(self).next as int
                    };
                    &&& final(self).next == n
                    &&& final(self).phase == (if n >= old(self).files.len() {
                        CyclePhase::Finalizing
                    } else {
                        CyclePhase::FetchingFiles
                    })
                    &&& final(self).outcome == (if n >= old(self).files.len() {
                        Some(CycleOutcome::Completed)
                    } else {
                        old(self).outcome
                    })
                },
            },
    {
        if self.phase != CyclePhase::FetchingFiles {
            return Err(SyncError::OutOfOrder);
        }
        match phase {
            TransferPhase::Cancelled => {
                self.phase = CyclePhase::Finalizing;
                self.outcome = Some(CycleOutcome::Cancelled);
            },
            TransferPhase::Failed(e) => {
                self.phase = CyclePhase::Finalizing;
                self.outcome = Some(CycleOutcome::Failed(SyncError::Transfer(e)));
            },
            _ => {
                if phase == TransferPhase::Completed {
                    self.next = self.next + 1;
                }
                if self.next >= self.files.len() {
                    self.phase = CyclePhase::Finalizing;
                    self.outcome = Some(CycleOutcome::Completed);
                }
            },
        }
        Ok(())
    }

    /// Records how the transfer of the archive ended. A completed archive is to be
    /// extracted next; a cancelled or failed one ends the cycle.
    pub fn bundle_finished(&mut self, phase: TransferPhase) -> (r: Result<(), SyncError>)
        ensures
            old(self).wf() ==> final(self).wf(),
            final(self).files@ == old(self).files@,
            final(self).next == old(self).next,
            old(self).phase != CyclePhase::FetchingBundle ==> r == Err::<(), SyncError>(
                SyncError::OutOfOrder,
            ) && final(self).phase == old(self).phase && final(self).outcome == old(self).outcome,
            old(self).phase == CyclePhase::FetchingBundle ==> r is Ok && match transfer_stop(phase) {
                Some(o) => final(self).phase == CyclePhase::Finalizing && final(self).outcome
                    == Some(o),
                None => if phase == TransferPhase::Completed {
                    final(self).phase == CyclePhase::Extracting && final(self).outcome
                        == old(self).outcome
                } else {
                    final(self).phase == old(self).phase && final(self).outcome
                        == old(self).outcome
                },
            },
    {
        if self.phase != CyclePhase::FetchingBundle {
            return Err(SyncError::OutOfOrder);
        }
        match phase {
            TransferPhase::Cancelled => {
                self.phase = CyclePhase::Finalizing;
                self.outcome = Some(CycleOutcome::Cancelled);
            },
            TransferPhase::Failed(e) => {
                self.phase = CyclePhase::Finalizing;
                self.outcome = Some(CycleOutcome::Failed(SyncError::Transfer(e)));
            },
            TransferPhase::Completed => {
                self.phase = CyclePhase::Extracting;
            },
            _ => {},
        }
        Ok(())
    }

    /// Records how the extraction of the archive ended, once it has.
    pub fn extract_finished(&mut self, phase: ExtractPhase) -> (r: Result<(), SyncError>)
        ensures
            old(self).wf() ==> final(self).wf(),
            final(self).files@ == old(self).files@,
            final(self).next == old(self).next,
            (old(self).phase != CyclePhase::Extracting || phase == ExtractPhase::Scanning || phase
                == ExtractPhase::Writing) ==> r == Err::<(), SyncError>(SyncError::OutOfOrder)
                && final(self).phase == old(self).phase && final(self).outcome == old(self).outcome,
            (old(self).phase == CyclePhase::Extracting && phase != ExtractPhase::Scanning && phase
                != ExtractPhase::Writing) ==> r is Ok && final(self).phase == CyclePhase::Finalizing
                && final(self).outcome == Some(extract_outcome(phase)),
    {
        if self.phase != CyclePhase::Extracting || phase == ExtractPhase::Scanning || phase
            == ExtractPhase::Writing {
            return Err(SyncError::OutOfOrder);
        }
        let o = match phase {
            ExtractPhase::Cancelled => CycleOutcome::Cancelled,
            ExtractPhase::Failed(e) => CycleOutcome::Failed(SyncError::Extract(e)),
            _ => CycleOutcome::Completed,
        };
        self.phase = CyclePhase::Finalizing;
        self.outcome = Some(o);
        Ok(())
    }

    /// Ends a finished cycle, once the deletions are done, and returns how it ended.
    pub fn finish(&mut self) -> (r: Result<CycleOutcome, SyncError>)
        ensures
            old(self).wf() ==> final(self).wf(),
            (old(self).phase == CyclePhase::Finalizing && old(self).outcome is Some) ==> r
                == Ok::<CycleOutcome, SyncError>(old(self).outcome->0) && final(self).phase
                == CyclePhase::Idle && final(self).outcome is None,
            !(old(self).phase == CyclePhase::Finalizing && old(self).outcome is Some) ==> r
                == Err::<CycleOutcome, SyncError>(SyncError::OutOfOrder) && final(self).phase
                == old(self).phase && final(self).outcome == old(self).outcome,
    {
        if self.phase != CyclePhase::Finalizing {
            return Err(SyncError::OutOfOrder);
        }
        match self.outcome {
            Some(o) => {
                self.phase = CyclePhase::Idle;
                self.outcome = None;
                self.files = Vec::new();
                self.next = 0;
                Ok(o)
            },
            None => Err(SyncError::OutOfOrder),
        }
    }
}

} // verus!
