use simple_mod_framework_installer::candidate::{holds, Candidate};
use simple_mod_framework_installer::select::{
    initial_selection, pick, present, select_valid, selected, status_line, status_text, Presentation, Probed,
    StatusLine,
};
use simple_mod_framework_installer::validate::FolderMarkers;

fn valid() -> FolderMarkers {
    FolderMarkers { retail: true, runtime: true, retail_runtime: false, executable: true, framework: false }
}

fn installed() -> FolderMarkers {
    FolderMarkers { framework: true, ..valid() }
}

fn empty() -> FolderMarkers {
    FolderMarkers { retail: false, runtime: false, retail_runtime: false, executable: false, framework: false }
}

fn probed(path: &str, name: Option<&str>, markers: FolderMarkers) -> Probed {
    Probed { candidate: Candidate::new(path.to_owned(), name.map(|n| n.to_owned())), markers }
}

#[test]
fn same_installation_from_two_sources_is_offered_once() {
    let list = vec![
        probed("C:\\Epic\\HITMAN3", Some("Agent 47"), valid()),
        probed("C:\\Epic\\HITMAN3", Some("Agent 47"), valid()),
    ];
    let out = select_valid(&list);
    assert_eq!(out.len(), 1);
    assert_eq!(out[0].path, "C:\\Epic\\HITMAN3");
    assert_eq!(out[0].display_name.as_deref(), Some("Agent 47"));
}

#[test]
fn same_folder_under_another_name_is_kept_apart() {
    let list = vec![
        probed("C:\\Epic\\HITMAN3", Some("Agent 47"), valid()),
        probed("C:\\Epic\\HITMAN3", None, valid()),
        probed("C:\\Epic\\HITMAN3", Some("Diana"), valid()),
    ];
    assert_eq!(select_valid(&list).len(), 3);
}

#[test]
fn only_valid_candidates_are_kept_in_probe_order() {
    let list = vec![
        probed("A", None, empty()),
        probed("B", Some("x"), valid()),
        probed("C", None, installed()),
        probed("D", None, valid()),
        probed("B", Some("x"), valid()),
        probed("E", None, valid()),
    ];
    let out = select_valid(&list);
    let paths: Vec<&str> = out.iter().map(|c| c.path.as_str()).collect();
    assert_eq!(paths, vec!["B", "D", "E"]);
}

#[test]
fn an_invalid_repeat_does_not_hide_a_valid_one() {
    let list = vec![probed("A", None, installed()), probed("A", None, valid())];
    let out = select_valid(&list);
    assert_eq!(out.len(), 1);
    assert_eq!(out[0].path, "A");
}

#[test]
fn nothing_probed_gives_nothing_to_select() {
    let out = select_valid(&vec![]);
    assert!(out.is_empty());
    assert_eq!(present(&out), Presentation::NoneFound);
    assert_eq!(initial_selection(&out), None);
}

#[test]
fn single_candidate_is_found_automatically() {
    let out = select_valid(&vec![probed("A", None, valid()), probed("B", None, empty())]);
    assert_eq!(present(&out), Presentation::FoundAutomatically);
    assert_eq!(initial_selection(&out), Some(0));
    let line = status_line(&out, 0).unwrap();
    assert!(matches!(line, StatusLine::FoundAutomatically));
    assert_eq!(status_text(&line), "\u{2705} Game folder found automatically");
}

#[test]
fn several_candidates_are_offered_for_choice() {
    let out = select_valid(&vec![probed("A", None, valid()), probed("B", Some("Agent 47"), valid())]);
    assert_eq!(present(&out), Presentation::Choose);
    assert_eq!(initial_selection(&out), Some(0));
    let first = status_line(&out, 0).unwrap();
    assert!(matches!(first, StatusLine::Selected));
    assert_eq!(status_text(&first), "\u{2705} Game folder selected");
    let second = status_line(&out, 1).unwrap();
    assert_eq!(status_text(&second), "\u{2705} Hello, Agent 47!");
    assert!(status_line(&out, 2).is_none());
}

#[test]
fn known_user_is_greeted_even_when_alone() {
    let out = select_valid(&vec![probed("A", Some("Diana"), valid())]);
    assert_eq!(present(&out), Presentation::FoundAutomatically);
    assert_eq!(status_text(&status_line(&out, 0).unwrap()), "\u{2705} Hello, Diana!");
}

#[test]
fn pick_selects_by_position() {
    let out = select_valid(&vec![probed("A", None, valid()), probed("B", None, valid())]);
    assert_eq!(pick(&out, Some(0), 1), Some(1));
    assert_eq!(pick(&out, Some(1), 0), Some(0));
    assert_eq!(pick(&out, Some(1), 2), Some(1));
    assert_eq!(pick(&out, None, 7), None);
    assert_eq!(selected(&out, Some(1)).map(|c| c.path.as_str()), Some("B"));
    assert!(selected(&out, Some(2)).is_none());
    assert!(selected(&out, None).is_none());
}

#[test]
fn candidates_are_equal_by_path_and_name() {
    let a = Candidate::new("A".to_owned(), Some("n".to_owned()));
    assert!(a.same_as(&a.duplicate()));
    assert!(!a.same_as(&Candidate::new("A".to_owned(), None)));
    assert!(!a.same_as(&Candidate::new("A".to_owned(), Some("m".to_owned()))));
    assert!(!a.same_as(&Candidate::new("a".to_owned(), Some("n".to_owned()))));
    assert!(Candidate::new("A".to_owned(), None).same_as(&Candidate::new("A".to_owned(), None)));
    let list = vec![Candidate::new("B".to_owned(), None), a.duplicate()];
    assert!(holds(&list, &a));
    assert!(!holds(&list, &Candidate::new("C".to_owned(), None)));
    assert!(!holds(&vec![], &a));
}
