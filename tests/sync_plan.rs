use mod_syncer::differ::{get_mods_to_delete, get_mods_to_download};
use mod_syncer::manifest::{BranchInfo, Mod, ZipFile};
use mod_syncer::plan::{
    build_plan, confirmed_deletions, update_keep_list, wanted_mods, PlanError,
};
use mod_syncer::strategy::{select_strategy, total_size, Strategy, THRESHOLD_PERCENT};

fn remote(name: &str, size: u64, optional: bool) -> Mod {
    Mod { name: name.to_string(), mod_date_bits: 0, size, is_optional: optional }
}

fn names(v: &[&str]) -> Vec<String> {
    v.iter().map(|s| s.to_string()).collect()
}

fn mod_names(mods: &[Mod]) -> Vec<String> {
    mods.iter().map(|m| m.name.clone()).collect()
}

#[test]
fn download_and_delete_sets_are_disjoint() {
    let remote_mods = vec![remote("a.jar", 1, false), remote("b.jar", 2, true), remote("c.jar", 3, false)];
    let local = names(&["b.jar", "d.jar", "e.jar"]);
    let down = mod_names(&get_mods_to_download(&remote_mods, &local));
    let del = get_mods_to_delete(&remote_mods, &local);
    assert_eq!(down, names(&["a.jar", "c.jar"]));
    assert_eq!(del, names(&["d.jar", "e.jar"]));
    for n in &down {
        assert!(!del.contains(n));
    }
}

#[test]
fn empty_remote_deletes_everything_local() {
    let local = names(&["x.jar", "y.jar"]);
    assert!(get_mods_to_download(&vec![], &local).is_empty());
    assert_eq!(get_mods_to_delete(&vec![], &local), local);
}

#[test]
fn empty_local_downloads_everything_remote() {
    let remote_mods = vec![remote("z.jar", 5, false), remote("a.jar", 7, true)];
    let down = get_mods_to_download(&remote_mods, &vec![]);
    assert_eq!(mod_names(&down), names(&["z.jar", "a.jar"]));
    assert_eq!(down[1].size, 7);
    assert!(down[1].is_optional);
    assert!(get_mods_to_delete(&remote_mods, &vec![]).is_empty());
}

#[test]
fn absent_bundle_always_goes_per_file() {
    let zip = ZipFile { size: 10, is_present: false, mod_date_bits: 0 };
    for total in [0u64, 1, 1000, u64::MAX / 2, u64::MAX] {
        assert_eq!(select_strategy(total, zip, THRESHOLD_PERCENT), Strategy::PerFile);
    }
}

#[test]
fn threshold_of_ninety_five_percent() {
    let zip = ZipFile { size: 1000, is_present: true, mod_date_bits: 0 };
    assert_eq!(select_strategy(960, zip, 95), Strategy::Bundle);
    assert_eq!(select_strategy(951, zip, 95), Strategy::Bundle);
    assert_eq!(select_strategy(950, zip, 95), Strategy::PerFile);
    assert_eq!(select_strategy(0, zip, 95), Strategy::PerFile);
}

#[test]
fn threshold_on_a_larger_bundle() {
    let zip = ZipFile { size: 10100, is_present: true, mod_date_bits: 0 };
    assert_eq!(select_strategy(10000, zip, 95), Strategy::Bundle);
    assert_eq!(select_strategy(9595, zip, 95), Strategy::PerFile);
    assert_eq!(select_strategy(9596, zip, 95), Strategy::Bundle);
    assert_eq!(select_strategy(9898, zip, 98), Strategy::PerFile);
    assert_eq!(select_strategy(9899, zip, 98), Strategy::Bundle);
}

#[test]
fn threshold_does_not_overflow_on_huge_bundles() {
    let zip = ZipFile { size: u64::MAX, is_present: true, mod_date_bits: 0 };
    assert_eq!(select_strategy(u64::MAX, zip, 95), Strategy::Bundle);
    assert_eq!(select_strategy(u64::MAX / 100 * 95, zip, 95), Strategy::PerFile);
}

#[test]
fn total_size_sums_and_saturates() {
    assert_eq!(total_size(&vec![]), 0);
    assert_eq!(total_size(&vec![remote("a", 3, false), remote("b", 4, false)]), 7);
    assert_eq!(total_size(&vec![remote("a", u64::MAX, false), remote("b", 4, false)]), u64::MAX);
}

#[test]
fn plan_for_required_and_optional_files_without_bundle() {
    let branch = BranchInfo {
        mods: vec![remote("A.jar", 100, false), remote("B.jar", 200, true)],
        zip: ZipFile { size: 0, is_present: false, mod_date_bits: 0 },
    };
    let local = names(&["C.jar"]);
    let plan = build_plan(&branch.mods, &local, &vec![]);
    let down: Vec<(String, bool, bool)> =
        plan.to_download.iter().map(|i| (i.name.clone(), i.checked, i.required)).collect();
    assert_eq!(
        down,
        vec![("A.jar".to_string(), true, true), ("B.jar".to_string(), false, false)]
    );
    let del: Vec<(String, bool)> = plan.to_delete.iter().map(|i| (i.name.clone(), i.checked)).collect();
    assert_eq!(del, vec![("C.jar".to_string(), true)]);
    let total = total_size(&branch.mods);
    assert_eq!(select_strategy(total, branch.zip, THRESHOLD_PERCENT), Strategy::PerFile);
}

#[test]
fn keep_list_unticks_deletions() {
    let remote_mods = vec![remote("a.jar", 1, false)];
    let local = names(&["old.jar", "mine.jar"]);
    let plan = build_plan(&remote_mods, &local, &names(&["mine.jar"]));
    let del: Vec<(String, bool)> = plan.to_delete.iter().map(|i| (i.name.clone(), i.checked)).collect();
    assert_eq!(del, vec![("old.jar".to_string(), true), ("mine.jar".to_string(), false)]);
    assert_eq!(confirmed_deletions(&plan), names(&["old.jar"]));
}

#[test]
fn required_file_cannot_be_unticked() {
    let remote_mods = vec![remote("A.jar", 1, false), remote("B.jar", 2, true)];
    let mut plan = build_plan(&remote_mods, &vec![], &vec![]);
    assert_eq!(plan.set_download_checked(&"A.jar".to_string(), false), Err(PlanError::RequiredMod));
    assert!(plan.to_download[0].checked);
    assert_eq!(plan.set_download_checked(&"Q.jar".to_string(), true), Err(PlanError::UnknownName));
    assert_eq!(plan.set_download_checked(&"B.jar".to_string(), true), Ok(()));
    assert!(plan.to_download[1].checked);
    assert_eq!(plan.set_download_checked(&"A.jar".to_string(), true), Ok(()));
    let wanted = wanted_mods(&remote_mods, &plan);
    assert_eq!(mod_names(&wanted), names(&["A.jar", "B.jar"]));
    assert_eq!(plan.set_download_checked(&"B.jar".to_string(), false), Ok(()));
    assert_eq!(mod_names(&wanted_mods(&remote_mods, &plan)), names(&["A.jar"]));
}

#[test]
fn deletion_ticks_change_and_unknown_names_are_refused() {
    let mut plan = build_plan(&vec![], &names(&["x.jar", "y.jar"]), &vec![]);
    assert_eq!(plan.set_delete_checked(&"x.jar".to_string(), false), Ok(()));
    assert_eq!(confirmed_deletions(&plan), names(&["y.jar"]));
    assert_eq!(plan.set_delete_checked(&"z.jar".to_string(), false), Err(PlanError::UnknownName));
    assert_eq!(confirmed_deletions(&plan), names(&["y.jar"]));
}

#[test]
fn keep_list_updates() {
    let mut keep = names(&["a.jar", "b.jar", "c.jar"]);
    update_keep_list(&mut keep, &"a.jar".to_string(), true);
    assert_eq!(keep, names(&["c.jar", "b.jar"]));
    update_keep_list(&mut keep, &"d.jar".to_string(), false);
    assert_eq!(keep, names(&["c.jar", "b.jar", "d.jar"]));
    update_keep_list(&mut keep, &"b.jar".to_string(), false);
    assert_eq!(keep, names(&["c.jar", "b.jar", "d.jar"]));
    update_keep_list(&mut keep, &"q.jar".to_string(), true);
    assert_eq!(keep, names(&["c.jar", "b.jar", "d.jar"]));
}
