use mod_syncer::profiles::{validate_profile_name, Profile, ProfilesMap, DEFAULT};

#[test]
fn profiles_are_added_found_and_removed() {
    let mut m = ProfilesMap::new();
    assert_eq!(m.version, 1);
    assert_eq!(m.get_last_profile_name(), "");
    assert!(!m.profile_exists(DEFAULT));
    m.new_profile(DEFAULT, Profile::new("https://example.org/minecraft", "", None));
    m.new_profile("work", Profile::new("http://h", "/m/mods", Some("dev".to_string())));
    assert!(m.profile_exists("work"));
    assert_eq!(m.get_profile("work").unwrap().branch, "dev");
    assert_eq!(m.get_profile(DEFAULT).unwrap().branch, "");
    assert!(m.get_profile("other").is_none());
    let mut names = m.get_profile_names();
    names.sort();
    assert_eq!(names, vec!["default".to_string(), "work".to_string()]);
    m.get_mut_profile("work").unwrap().address = "http://k".to_string();
    assert_eq!(m.get_profile("work").unwrap().address, "http://k");
    m.delete_profile("work");
    assert!(!m.profile_exists("work"));
    assert_eq!(m.get_profile_names(), vec!["default".to_string()]);
    m.set_last_profile_name(DEFAULT);
    assert_eq!(m.get_last_profile_name(), "default");
}

#[test]
fn new_profile_keeps_nothing() {
    let p = Profile::new("a", "b", None);
    assert_eq!(p.address, "a");
    assert_eq!(p.mods_path, "b");
    assert!(p.keep_mods_in_branch.is_empty());
    assert!(validate_profile_name("anything"));
}
