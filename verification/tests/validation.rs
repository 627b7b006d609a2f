use simple_mod_framework_installer::validate::{
    mark_extracted, marker_paths, validate, FolderMarkers, ValidationResult,
};

fn genuine() -> FolderMarkers {
    FolderMarkers { retail: true, runtime: false, retail_runtime: true, executable: true, framework: false }
}

#[test]
fn genuine_folder_is_valid() {
    assert_eq!(validate(genuine()), ValidationResult::Valid);
}

#[test]
fn runtime_at_top_level_counts() {
    let m = FolderMarkers { runtime: true, retail_runtime: false, ..genuine() };
    assert_eq!(validate(m), ValidationResult::Valid);
}

#[test]
fn missing_retail_is_not_a_game_folder() {
    for bits in 0..16u8 {
        let m = FolderMarkers {
            retail: false,
            runtime: bits & 1 != 0,
            retail_runtime: bits & 2 != 0,
            executable: bits & 4 != 0,
            framework: bits & 8 != 0,
        };
        assert_eq!(validate(m), ValidationResult::NotAGameFolder);
    }
}

#[test]
fn missing_runtime_is_not_a_game_folder() {
    let m = FolderMarkers { runtime: false, retail_runtime: false, ..genuine() };
    assert_eq!(validate(m), ValidationResult::NotAGameFolder);
}

#[test]
fn missing_executable_is_not_a_game_folder() {
    let m = FolderMarkers { executable: false, ..genuine() };
    assert_eq!(validate(m), ValidationResult::NotAGameFolder);
}

#[test]
fn framework_folder_means_already_installed() {
    let m = FolderMarkers { framework: true, ..genuine() };
    assert_eq!(validate(m), ValidationResult::AlreadyInstalled);
    let both = FolderMarkers { runtime: true, retail_runtime: true, framework: true, ..genuine() };
    assert_eq!(validate(both), ValidationResult::AlreadyInstalled);
}

#[test]
fn framework_folder_alone_is_not_a_game_folder() {
    let m = FolderMarkers { retail: false, runtime: false, retail_runtime: false, executable: false, framework: true };
    assert_eq!(validate(m), ValidationResult::NotAGameFolder);
}

#[test]
fn extraction_turns_valid_into_installed() {
    let before = genuine();
    assert_eq!(validate(before), ValidationResult::Valid);
    let after = mark_extracted(before);
    assert!(after.framework);
    assert_eq!(validate(after), ValidationResult::AlreadyInstalled);
}

#[test]
fn marker_paths_lie_under_the_root() {
    let p = marker_paths("C:\\Games\\HITMAN3");
    assert_eq!(p.retail, "C:\\Games\\HITMAN3\\Retail");
    assert_eq!(p.runtime, "C:\\Games\\HITMAN3\\Runtime");
    assert_eq!(p.retail_runtime, "C:\\Games\\HITMAN3\\Retail\\Runtime");
    assert_eq!(p.executable, "C:\\Games\\HITMAN3\\Retail\\HITMAN3.exe");
    assert_eq!(p.framework, "C:\\Games\\HITMAN3\\Simple Mod Framework");
}
