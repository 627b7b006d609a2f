use simple_mod_framework_installer::json::Json;
use simple_mod_framework_installer::legendary::{legendary_files, legendary_from_documents, probe_legendary};

const INSTALLED: &[u8] = b"{\"Eider\": {\"app_name\": \"Eider\", \"install_path\": \"D:\\\\Games\\\\HITMAN3\"}, \"Other\": {\"install_path\": \"D:\\\\Games\\\\Other\"}}";
const USER: &[u8] = b"{\"displayName\": \"Agent 47\", \"account_id\": \"abc\"}";

#[test]
fn legendary_installation_is_found() {
    let found = probe_legendary(Some(INSTALLED), Some(USER));
    assert_eq!(found.len(), 1);
    assert_eq!(found[0].path, "D:\\Games\\HITMAN3");
    assert_eq!(found[0].display_name.as_deref(), Some("Agent 47"));
}

#[test]
fn legendary_without_installed_file_finds_nothing() {
    assert!(probe_legendary(None, Some(USER)).is_empty());
    assert!(probe_legendary(None, None).is_empty());
}

#[test]
fn legendary_without_the_game_finds_nothing() {
    let installed = b"{\"Other\": {\"install_path\": \"D:\\\\Games\\\\Other\"}}";
    assert!(probe_legendary(Some(installed), Some(USER)).is_empty());
}

#[test]
fn legendary_with_malformed_files_finds_nothing() {
    assert!(probe_legendary(Some(b"{\"Eider\": "), Some(USER)).is_empty());
    assert!(probe_legendary(Some(INSTALLED), Some(b"not json")).is_empty());
    assert!(probe_legendary(Some(INSTALLED), None).is_empty());
}

#[test]
fn legendary_needs_path_and_name_as_strings() {
    let no_path = b"{\"Eider\": {\"app_name\": \"Eider\"}}";
    assert!(probe_legendary(Some(no_path), Some(USER)).is_empty());
    let numeric_path = b"{\"Eider\": {\"install_path\": 3}}";
    assert!(probe_legendary(Some(numeric_path), Some(USER)).is_empty());
    let no_name = b"{\"account_id\": \"abc\"}";
    assert!(probe_legendary(Some(INSTALLED), Some(no_name)).is_empty());
}

#[test]
fn legendary_reads_parsed_documents() {
    let installed = Json::Object(vec![(
        "Eider".to_owned(),
        Json::Object(vec![("install_path".to_owned(), Json::Text("E:\\H3".to_owned()))]),
    )]);
    let user = Json::Object(vec![("displayName".to_owned(), Json::Text("Diana".to_owned()))]);
    let found = legendary_from_documents(Some(&installed), Some(&user));
    assert_eq!(found.len(), 1);
    assert_eq!(found[0].path, "E:\\H3");
    assert_eq!(found[0].display_name.as_deref(), Some("Diana"));
    assert!(legendary_from_documents(None, Some(&user)).is_empty());
    assert!(legendary_from_documents(Some(&installed), None).is_empty());
    assert!(legendary_from_documents(Some(&user), Some(&user)).is_empty());
}

#[test]
fn legendary_files_lie_under_the_profile() {
    let (installed, user) = legendary_files("C:\\Users\\47");
    assert_eq!(installed, "C:\\Users\\47\\.config\\legendary\\installed.json");
    assert_eq!(user, "C:\\Users\\47\\.config\\legendary\\user.json");
}
