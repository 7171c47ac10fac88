use mod_syncer::cycle::{CycleOutcome, CyclePhase, SyncCycle, SyncError};
use mod_syncer::extract::{ExtractError, ExtractPhase};
use mod_syncer::manifest::{BranchInfo, Mod, ZipFile};
use mod_syncer::strategy::Strategy;
use mod_syncer::transfer::{TransferError, TransferPhase};

fn entry(name: &str, size: u64, optional: bool) -> Mod {
    Mod { name: name.to_string(), mod_date_bits: 0, size, is_optional: optional }
}

fn branch(zip_size: u64, present: bool) -> BranchInfo {
    BranchInfo {
        mods: vec![entry("a.jar", 4000, false), entry("b.jar", 6000, false), entry("o.jar", 50, true)],
        zip: ZipFile { size: zip_size, is_present: present, mod_date_bits: 0 },
    }
}

#[test]
fn large_total_goes_through_the_bundle_with_the_same_wanted_names() {
    let b = branch(10100, true);
    let mut c = SyncCycle::new();
    let plan = c.begin(&b, &vec!["old.jar".to_string()], &vec![]).unwrap();
    let d = c.dispatch(&b, &plan, 95).unwrap();
    assert_eq!(d.total_size, 10000);
    assert_eq!(d.strategy, Strategy::Bundle);
    assert_eq!(d.wanted, vec!["a.jar".to_string(), "b.jar".to_string()]);
    assert_eq!(d.deletions, vec!["old.jar".to_string()]);
    assert_eq!(c.phase, CyclePhase::FetchingBundle);
    assert_eq!(c.next_file(), None);
    assert_eq!(c.bundle_finished(TransferPhase::Completed), Ok(()));
    assert_eq!(c.phase, CyclePhase::Extracting);
    assert_eq!(c.extract_finished(ExtractPhase::Completed), Ok(()));
    assert_eq!(c.finish(), Ok(CycleOutcome::Completed));
    assert_eq!(c.phase, CyclePhase::Idle);
}

#[test]
fn a_second_cycle_is_refused_while_one_runs() {
    let b = branch(0, false);
    let mut c = SyncCycle::new();
    assert!(c.begin(&b, &vec![], &vec![]).is_ok());
    assert!(matches!(c.begin(&b, &vec![], &vec![]), Err(SyncError::Busy)));
    assert_eq!(c.phase, CyclePhase::Deciding);
}

#[test]
fn per_file_queue_stops_at_the_first_failure() {
    let b = branch(0, false);
    let mut c = SyncCycle::new();
    let plan = c.begin(&b, &vec![], &vec![]).unwrap();
    let d = c.dispatch(&b, &plan, 95).unwrap();
    assert_eq!(d.strategy, Strategy::PerFile);
    assert_eq!(d.files.len(), 2);
    assert_eq!(c.next_file(), Some(0));
    assert_eq!(c.file_finished(TransferPhase::Completed), Ok(()));
    assert_eq!(c.next_file(), Some(1));
    assert_eq!(c.file_finished(TransferPhase::Failed(TransferError::Status(500))), Ok(()));
    assert_eq!(c.next_file(), None);
    assert_eq!(c.finish(), Ok(CycleOutcome::Failed(SyncError::Transfer(TransferError::Status(500)))));
}

#[test]
fn per_file_queue_runs_to_the_end() {
    let b = branch(0, false);
    let mut c = SyncCycle::new();
    let plan = c.begin(&b, &vec![], &vec![]).unwrap();
    c.dispatch(&b, &plan, 95).unwrap();
    c.file_finished(TransferPhase::Completed).unwrap();
    c.file_finished(TransferPhase::Completed).unwrap();
    assert_eq!(c.phase, CyclePhase::Finalizing);
    assert_eq!(c.finish(), Ok(CycleOutcome::Completed));
}

#[test]
fn cancelled_file_ends_the_cycle() {
    let b = branch(0, false);
    let mut c = SyncCycle::new();
    let plan = c.begin(&b, &vec![], &vec![]).unwrap();
    c.dispatch(&b, &plan, 95).unwrap();
    c.file_finished(TransferPhase::Cancelled).unwrap();
    assert_eq!(c.finish(), Ok(CycleOutcome::Cancelled));
}

#[test]
fn nothing_to_fetch_finishes_at_once() {
    let b = branch(0, false);
    let local = vec!["a.jar".to_string(), "b.jar".to_string(), "o.jar".to_string()];
    let mut c = SyncCycle::new();
    let plan = c.begin(&b, &local, &vec![]).unwrap();
    let d = c.dispatch(&b, &plan, 95).unwrap();
    assert!(d.files.is_empty());
    assert_eq!(c.phase, CyclePhase::Finalizing);
    assert_eq!(c.finish(), Ok(CycleOutcome::Completed));
}

#[test]
fn requests_out_of_order_are_refused() {
    let b = branch(0, false);
    let mut c = SyncCycle::new();
    let plan = mod_syncer::plan::build_plan(&b.mods, &vec![], &vec![]);
    assert!(matches!(c.dispatch(&b, &plan, 95), Err(SyncError::OutOfOrder)));
    assert_eq!(c.file_finished(TransferPhase::Completed), Err(SyncError::OutOfOrder));
    assert_eq!(c.bundle_finished(TransferPhase::Completed), Err(SyncError::OutOfOrder));
    assert_eq!(c.extract_finished(ExtractPhase::Completed), Err(SyncError::OutOfOrder));
    assert_eq!(c.finish(), Err(SyncError::OutOfOrder));
}

#[test]
fn failed_extraction_fails_the_cycle() {
    let b = branch(100, true);
    let mut c = SyncCycle::new();
    let plan = c.begin(&b, &vec![], &vec![]).unwrap();
    c.dispatch(&b, &plan, 95).unwrap();
    c.bundle_finished(TransferPhase::Completed).unwrap();
    assert_eq!(c.extract_finished(ExtractPhase::Writing), Err(SyncError::OutOfOrder));
    c.extract_finished(ExtractPhase::Failed(ExtractError::Archive)).unwrap();
    assert_eq!(c.finish(), Ok(CycleOutcome::Failed(SyncError::Extract(ExtractError::Archive))));
}
