use mod_syncer::api::{branch_list_url, branch_url, bundle_file_name, mod_url, release_tag};
use mod_syncer::local::{get_local_mods, is_mods_folder, LocalEntry};
use mod_syncer::names::{is_jar_name, plain_file_name};

fn entry(name: &str, is_file: bool) -> LocalEntry {
    LocalEntry { name: name.to_string(), is_file }
}

#[test]
fn only_jar_files_are_listed() {
    let entries = vec![
        entry("a.jar", true),
        entry("B.JAR", true),
        entry("c.Jar", true),
        entry("notes.txt", true),
        entry("folder.jar", false),
        entry(".jar", true),
        entry("jar", true),
        entry("x.jar.bak", true),
    ];
    assert_eq!(get_local_mods(&entries), vec!["a.jar".to_string(), "B.JAR".to_string(), "c.Jar".to_string()]);
    assert!(get_local_mods(&vec![]).is_empty());
}

#[test]
fn jar_extension_rules() {
    assert!(is_jar_name("..jar"));
    assert!(is_jar_name("a.b.jar"));
    assert!(!is_jar_name(".jar"));
    assert!(!is_jar_name("a.jarx"));
}

#[test]
fn mods_folder_names() {
    assert!(is_mods_folder("/home/u/.minecraft/mods", true, false));
    assert!(is_mods_folder("mods", true, false));
    assert!(is_mods_folder("a/mods//", true, false));
    assert!(is_mods_folder("/x/mods/.", true, false));
    assert!(is_mods_folder("/x/mods/./", true, false));
    assert!(is_mods_folder("./mods", true, false));
    assert!(!is_mods_folder("/x/mods/..", true, false));
    assert!(!is_mods_folder("/x/mods.", true, false));
    assert!(!is_mods_folder("a/mods", false, false));
    assert!(!is_mods_folder("a/moods", true, false));
    assert!(!is_mods_folder("a/xmods", true, false));
    assert!(!is_mods_folder("", true, false));
    assert!(!is_mods_folder(".", true, false));
}

#[test]
fn mods_folder_names_on_windows() {
    assert!(is_mods_folder("C:\\games\\mods\\", true, true));
    assert!(is_mods_folder("C:\\games\\mods\\.", true, true));
    assert!(is_mods_folder("C:mods", true, true));
    assert!(!is_mods_folder("x\\mods", true, false));
    assert!(is_mods_folder("x\\mods", true, true));
    assert!(!is_mods_folder("C:mods", true, false));
}

#[test]
fn plain_names() {
    assert!(plain_file_name("a.jar", false));
    assert!(!plain_file_name("", false));
    assert!(!plain_file_name(".", false));
    assert!(!plain_file_name("..", false));
    assert!(!plain_file_name("a/b", false));
    assert!(!plain_file_name("a/b", true));
    assert!(plain_file_name("a\\b", false));
    assert!(!plain_file_name("a\\b", true));
    assert!(plain_file_name("a:b", false));
    assert!(!plain_file_name("a:b", true));
    assert!(!plain_file_name("a\0b", false));
    assert!(plain_file_name("...", false));
}

#[test]
fn server_addresses() {
    assert_eq!(branch_list_url("http://h/api"), "http://h/api/mods");
    assert_eq!(branch_url("http://h/api", "main"), "http://h/api/mods/main");
    assert_eq!(mod_url("http://h", "main", "a.jar"), "http://h/mods/main/a.jar");
    assert_eq!(bundle_file_name("main"), "main.zip");
}

#[test]
fn release_tags() {
    assert_eq!(release_tag("https://github.com/o/r/releases/tag/1.2.3"), "1.2.3");
    assert_eq!(release_tag("1.0.0"), "1.0.0");
    assert_eq!(release_tag("x/"), "");
}
