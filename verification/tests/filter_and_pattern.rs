use bw2mp::filter::{find_folder_id_by_name, folder_name_by_id, resolve_folder_name};
use bw2mp::model::Folder;
use bw2mp::pattern::{pattern_check, pattern_try_match};

fn folders() -> Vec<Folder> {
    vec![
        Folder { id: "F1".to_owned(), name: "Work".to_owned() },
        Folder { id: "F2".to_owned(), name: "Personal".to_owned() },
        Folder { id: "F3".to_owned(), name: "Work".to_owned() },
    ]
}

#[test]
fn find_folder_id_by_name_finds_first_match() {
    let fs = folders();
    assert_eq!(find_folder_id_by_name(&fs, "Work"), Some("F1".to_owned()));
    assert_eq!(find_folder_id_by_name(&fs, "Personal"), Some("F2".to_owned()));
    assert_eq!(find_folder_id_by_name(&fs, "Home"), None);
    assert_eq!(find_folder_id_by_name(&[], "Work"), None);
}

#[test]
fn folder_name_by_id_finds_first_match() {
    let fs = folders();
    assert_eq!(folder_name_by_id(&fs, "F2"), Some("Personal".to_owned()));
    assert_eq!(folder_name_by_id(&fs, "F9"), None);
}

#[test]
fn resolve_folder_name_defaults_to_empty() {
    let fs = folders();
    assert_eq!(resolve_folder_name(&fs, &Some("F1".to_owned())), "Work".to_owned());
    assert_eq!(resolve_folder_name(&fs, &Some("F9".to_owned())), String::new());
    assert_eq!(resolve_folder_name(&fs, &None), String::new());
}

#[test]
fn pattern_check_accepts_and_rejects() {
    assert!(pattern_check(".*"));
    assert!(pattern_check("^Work$"));
    assert!(!pattern_check("("));
    assert!(!pattern_check("["));
}

#[test]
fn pattern_try_match_consults_the_pattern() {
    assert_eq!(pattern_try_match("^a+$", "aaa"), Some(true));
    assert_eq!(pattern_try_match("^a+$", "b"), Some(false));
    assert_eq!(pattern_try_match("Wor", "Work"), Some(true));
    assert_eq!(pattern_try_match("(", "anything"), None);
}

#[test]
fn pattern_on_empty_string() {
    assert_eq!(pattern_try_match(".*", ""), Some(true));
    assert_eq!(pattern_try_match("^x", ""), Some(false));
    assert_eq!(pattern_try_match("^$", ""), Some(true));
}
