use simple_mod_framework_installer::eos::{
    eos_from_documents, epic_display_name, epic_settings_file, name_from_blob, probe_eos, NameRecovery,
};
use simple_mod_framework_installer::json::Json;
use simple_mod_framework_installer::probe::{ProbeError, RegistryName, RegistryValue};

const SETTINGS: &str = "[Launcher]\nLanguage=en\n\n[Offline]\nData=W3siRGlzcGxheU5hbWUiOiJBZ2VudCA0NyJ9XQ==\n";
const GAME: &[u8] = b"{\"AppName\": \"Eider\", \"InstallLocation\": \"C:\\\\Epic\\\\HITMAN3\"}";
const OTHER: &[u8] = b"{\"AppName\": \"Fortnite\", \"InstallLocation\": \"C:\\\\Epic\\\\Fortnite\"}";

fn dir() -> RegistryValue {
    RegistryValue::Text("C:\\ProgramData\\Epic\\Manifests".to_owned())
}

#[test]
fn display_name_is_decoded_from_the_settings() {
    match epic_display_name(Some(SETTINGS)) {
        NameRecovery::Found(name) => assert_eq!(name, "Agent 47"),
        other => panic!("unexpected outcome: {:?}", other),
    }
}

#[test]
fn display_name_is_absent_without_settings_or_offline_data() {
    assert!(matches!(epic_display_name(None), NameRecovery::Absent));
    assert!(matches!(epic_display_name(Some("")), NameRecovery::Absent));
    assert!(matches!(epic_display_name(Some("[Launcher]\nLanguage=en\n")), NameRecovery::Absent));
    assert!(matches!(epic_display_name(Some("[Offline]\nOther=1\n")), NameRecovery::Absent));
    assert!(matches!(
        epic_display_name(Some("[General]\nData=W3siRGlzcGxheU5hbWUiOiJBZ2VudCA0NyJ9XQ==\n")),
        NameRecovery::Absent
    ));
}

#[test]
fn display_name_fails_on_data_that_cannot_be_read() {
    assert!(matches!(epic_display_name(Some("[Offline]\nData=***\n")), NameRecovery::Failed));
    assert!(matches!(epic_display_name(Some("[Offline]\nData=bm90IGpzb24=\n")), NameRecovery::Failed));
    assert!(matches!(epic_display_name(Some("[Offline]\nData=W3siTmFtZSI6IngifV0=\n")), NameRecovery::Failed));
    assert!(matches!(epic_display_name(Some("[Offline\nData=x\n")), NameRecovery::Failed));
}

#[test]
fn name_is_read_from_the_first_element() {
    let blob = Json::Array(vec![
        Json::Object(vec![("DisplayName".to_owned(), Json::Text("First".to_owned()))]),
        Json::Object(vec![("DisplayName".to_owned(), Json::Text("Second".to_owned()))]),
    ]);
    match name_from_blob(Some(&blob)) {
        NameRecovery::Found(name) => assert_eq!(name, "First"),
        other => panic!("unexpected outcome: {:?}", other),
    }
    assert!(matches!(name_from_blob(None), NameRecovery::Failed));
    assert!(matches!(name_from_blob(Some(&Json::Array(vec![]))), NameRecovery::Failed));
    assert!(matches!(name_from_blob(Some(&Json::Object(vec![]))), NameRecovery::Failed));
}

#[test]
fn eos_installation_is_found_with_its_user() {
    let files = vec![OTHER.to_vec(), GAME.to_vec()];
    let found = probe_eos(&dir(), &files, Some(SETTINGS)).unwrap();
    assert_eq!(found.len(), 1);
    assert_eq!(found[0].path, "C:\\Epic\\HITMAN3");
    assert_eq!(found[0].display_name.as_deref(), Some("Agent 47"));
}

#[test]
fn eos_installation_is_found_without_settings() {
    let files = vec![GAME.to_vec()];
    let found = probe_eos(&dir(), &files, None).unwrap();
    assert_eq!(found.len(), 1);
    assert_eq!(found[0].path, "C:\\Epic\\HITMAN3");
    assert_eq!(found[0].display_name, None);
}

#[test]
fn eos_lists_every_manifest_of_the_game_in_order() {
    let second = b"{\"AppName\": \"Eider\", \"InstallLocation\": \"D:\\\\HITMAN3\"}";
    let files = vec![GAME.to_vec(), OTHER.to_vec(), second.to_vec()];
    let found = probe_eos(&dir(), &files, None).unwrap();
    assert_eq!(found.len(), 2);
    assert_eq!(found[0].path, "C:\\Epic\\HITMAN3");
    assert_eq!(found[1].path, "D:\\HITMAN3");
}

#[test]
fn eos_without_registry_value_finds_nothing() {
    let files = vec![GAME.to_vec()];
    assert!(probe_eos(&RegistryValue::Missing, &files, Some(SETTINGS)).unwrap().is_empty());
}

#[test]
fn eos_registry_value_of_wrong_type_is_an_error() {
    let files = vec![GAME.to_vec()];
    let outcome = probe_eos(&RegistryValue::Other, &files, Some(SETTINGS));
    assert_eq!(outcome.unwrap_err(), ProbeError::NotText(RegistryName::EpicManifestDir));
}

#[test]
fn eos_fails_as_a_whole_on_a_malformed_manifest() {
    let files = vec![GAME.to_vec(), b"{\"AppName\": ".to_vec()];
    assert!(probe_eos(&dir(), &files, None).unwrap().is_empty());
    let nameless = vec![GAME.to_vec(), b"{\"InstallLocation\": \"x\"}".to_vec()];
    assert!(probe_eos(&dir(), &nameless, None).unwrap().is_empty());
    let placeless = vec![b"{\"AppName\": \"Eider\"}".to_vec()];
    assert!(probe_eos(&dir(), &placeless, None).unwrap().is_empty());
}

#[test]
fn eos_fails_on_unreadable_offline_data_only_where_the_game_is_listed() {
    let broken = "[Offline]\nData=***\n";
    assert!(probe_eos(&dir(), &vec![GAME.to_vec()], Some(broken)).unwrap().is_empty());
    assert!(probe_eos(&dir(), &vec![OTHER.to_vec()], Some(broken)).unwrap().is_empty());
    let docs = vec![Json::parse(OTHER)];
    assert!(eos_from_documents(&docs, &NameRecovery::Failed).is_empty());
}

#[test]
fn eos_with_no_manifests_finds_nothing() {
    assert!(probe_eos(&dir(), &vec![], Some(SETTINGS)).unwrap().is_empty());
}

#[test]
fn eos_reads_parsed_manifests() {
    let docs = vec![Json::parse(GAME), Json::parse(OTHER)];
    let found = eos_from_documents(&docs, &NameRecovery::Found("Diana".to_owned()));
    assert_eq!(found.len(), 1);
    assert_eq!(found[0].display_name.as_deref(), Some("Diana"));
    assert!(eos_from_documents(&vec![Json::parse(GAME), None], &NameRecovery::Absent).is_empty());
    assert!(eos_from_documents(&docs, &NameRecovery::Failed).is_empty());
}

#[test]
fn epic_settings_file_lies_under_local_data() {
    assert_eq!(
        epic_settings_file("C:\\Users\\47\\AppData\\Local"),
        "C:\\Users\\47\\AppData\\Local\\EpicGamesLauncher\\Saved\\Config\\Windows\\GameUserSettings.ini"
    );
}
