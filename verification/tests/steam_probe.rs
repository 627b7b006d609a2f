use simple_mod_framework_installer::probe::{ProbeError, RegistryName, RegistryValue};
use simple_mod_framework_installer::steam::{
    game_dir, holds_game, most_recent_user, probe_steam, steam_files, steam_from_files, SteamLibraryFolder, SteamUser,
};

fn folder(path: &str, apps: &[&str]) -> SteamLibraryFolder {
    SteamLibraryFolder { path: path.to_owned(), apps: apps.iter().map(|a| (*a).to_owned()).collect() }
}

fn user(name: &str, most_recent: bool) -> SteamUser {
    SteamUser { persona_name: name.to_owned(), most_recent }
}

fn steam_path() -> RegistryValue {
    RegistryValue::Text("c:/program files (x86)/steam".to_owned())
}

#[test]
fn steam_installation_is_found_in_its_library() {
    let folders = vec![folder("C:\\Program Files (x86)\\Steam", &["228980", "730"]), folder("D:\\SteamLibrary", &["1659040"])];
    let users = vec![user("Old", false), user("Agent 47", true)];
    let found = probe_steam(&steam_path(), Some(&folders), Some(&users)).unwrap();
    assert_eq!(found.len(), 1);
    assert_eq!(found[0].path, "D:\\SteamLibrary\\steamapps\\common\\HITMAN 3");
    assert_eq!(found[0].display_name.as_deref(), Some("Agent 47"));
}

#[test]
fn steam_starter_pack_counts_as_the_game() {
    assert!(holds_game(&folder("D:\\L", &["1847520"])));
    assert!(holds_game(&folder("D:\\L", &["10", "1659040", "20"])));
    assert!(!holds_game(&folder("D:\\L", &["16590400", "165904", "184752"])));
    assert!(!holds_game(&folder("D:\\L", &[])));
}

#[test]
fn steam_lists_every_library_with_the_game_in_order() {
    let folders = vec![folder("C:\\A", &["1847520"]), folder("D:\\B", &["1"]), folder("E:\\C", &["1659040"])];
    let users = vec![user("Agent 47", true)];
    let found = steam_from_files(Some(&folders), Some(&users));
    assert_eq!(found.len(), 2);
    assert_eq!(found[0].path, "C:\\A\\steamapps\\common\\HITMAN 3");
    assert_eq!(found[1].path, "E:\\C\\steamapps\\common\\HITMAN 3");
}

#[test]
fn steam_takes_the_first_most_recent_user() {
    let users = vec![user("A", false), user("B", true), user("C", true)];
    assert_eq!(most_recent_user(&users).map(|s| s.as_str()), Some("B"));
    assert!(most_recent_user(&vec![user("A", false)]).is_none());
    assert!(most_recent_user(&vec![]).is_none());
}

#[test]
fn steam_without_most_recent_user_finds_nothing() {
    let folders = vec![folder("D:\\SteamLibrary", &["1659040"])];
    assert!(steam_from_files(Some(&folders), Some(&vec![user("A", false)])).is_empty());
    assert!(steam_from_files(Some(&folders), None).is_empty());
    assert!(steam_from_files(None, Some(&vec![user("A", true)])).is_empty());
}

#[test]
fn steam_without_registry_value_finds_nothing() {
    let folders = vec![folder("D:\\SteamLibrary", &["1659040"])];
    let users = vec![user("A", true)];
    assert!(probe_steam(&RegistryValue::Missing, Some(&folders), Some(&users)).unwrap().is_empty());
}

#[test]
fn steam_registry_value_of_wrong_type_is_an_error() {
    let outcome = probe_steam(&RegistryValue::Other, None, None);
    assert_eq!(outcome.unwrap_err(), ProbeError::NotText(RegistryName::SteamPath));
}

#[test]
fn steam_files_lie_under_the_client_folder() {
    let files = steam_files("C:\\Steam");
    assert_eq!(files.library_folders, "C:\\Steam\\config\\libraryfolders.vdf");
    assert_eq!(files.library_folders_fallback, "C:\\Steam\\steamapps\\libraryfolders.vdf");
    assert_eq!(files.login_users, "C:\\Steam\\config\\loginusers.vdf");
    assert_eq!(game_dir("D:\\Lib\\"), "D:\\Lib\\steamapps\\common\\HITMAN 3");
}
