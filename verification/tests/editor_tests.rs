use rozsda::editor::{
    apply_save_action, choose_project_folder, editor_changed, has_unsaved_changes,
    open_dialog_folder, record_created_project, save_target, try_window_titles, window_titles,
    ProjectChoice, SaveAction,
};
use rozsda::state::{ActiveMetadata, ProjectMetadata};

fn file(path: &str, text: &str) -> Option<ActiveMetadata> {
    Some(ActiveMetadata::new(path.to_string(), text.as_bytes()))
}

#[test]
fn dialog_starts_in_folder_of_open_file() {
    assert_eq!(open_dialog_folder(&file("/home/u/src/main.rs", "")), Some("/home/u/src".to_string()));
    assert_eq!(open_dialog_folder(&None), None);
}

#[test]
fn opened_file_has_no_unsaved_changes() {
    let current = file("/home/u/a.rs", "fn f() {}");
    assert!(!has_unsaved_changes(Some("fn f() {}"), &current));
    assert!(has_unsaved_changes(Some("fn f() {} "), &current));
}

#[test]
fn unsaved_changes_without_file() {
    assert!(has_unsaved_changes(Some("text"), &None));
    assert!(!has_unsaved_changes(Some(""), &None));
    assert!(!has_unsaved_changes(None, &None));
    assert!(!has_unsaved_changes(None, &file("/a.rs", "x")));
}

#[test]
fn emptied_open_file_is_unsaved() {
    let current = file("/a.rs", "content");
    assert!(has_unsaved_changes(Some(""), &current));
}

#[test]
fn titles_without_file_or_project() {
    let (title, subtitle) = window_titles(&None, &None, true);
    assert_eq!(title, "Rozsda IDE");
    assert_eq!(subtitle, "");
    let (title, _) = window_titles(&None, &None, false);
    assert_eq!(title, "Rozsda IDE*");
}

#[test]
fn titles_with_file_and_project() {
    let current = file("/home/u/p/src/main.rs", "");
    let project = Some(ProjectMetadata::new("/home/u/p".to_string()));
    let (title, subtitle) = window_titles(&current, &project, false);
    assert_eq!(title, "/home/u/p/src/main.rs* - /home/u/p");
    assert_eq!(subtitle, "/home/u/p/src");
    let (title, _) = window_titles(&current, &project, true);
    assert_eq!(title, "/home/u/p/src/main.rs - /home/u/p");
}

#[test]
fn titles_with_project_only() {
    let project = Some(ProjectMetadata::new("/w".to_string()));
    assert_eq!(window_titles(&None, &project, true).0, "Rozsda IDE - /w");
}

#[test]
fn titles_need_a_directory_for_the_file() {
    assert_eq!(try_window_titles(&file("/", ""), &None, true), None);
    assert_eq!(
        try_window_titles(&file("/x/y.rs", ""), &None, true),
        Some(("/x/y.rs".to_string(), "/x".to_string()))
    );
    assert_eq!(try_window_titles(&None, &None, false), Some(("Rozsda IDE*".to_string(), String::new())));
}

#[test]
fn editor_change_with_open_file() {
    let current = file("/a.rs", "abc");
    let same = editor_changed(&current, "abc");
    assert_eq!(same.save_sensitive, Some(false));
    assert_eq!(same.title_updates, vec![true, false]);
    let changed = editor_changed(&current, "abcd");
    assert_eq!(changed.save_sensitive, Some(true));
    assert_eq!(changed.title_updates, vec![false, false]);
}

#[test]
fn editor_change_without_file() {
    let refresh = editor_changed(&None, "");
    assert_eq!(refresh.save_sensitive, None);
    assert_eq!(refresh.title_updates, vec![true]);
    let refresh = editor_changed(&None, "x");
    assert_eq!(refresh.title_updates, vec![false]);
}

#[test]
fn save_goes_over_open_file_unless_save_as() {
    let current = file("/a.rs", "");
    assert_eq!(save_target(&current, false), Some("/a.rs".to_string()));
    assert_eq!(save_target(&current, true), None);
    assert_eq!(save_target(&None, false), None);
}

#[test]
fn save_over_open_file_records_contents() {
    let mut current = file("/a.rs", "old");
    assert!(apply_save_action(&mut current, SaveAction::Saved, b"new"));
    assert!(!has_unsaved_changes(Some("new"), &current));
    assert_eq!(current.as_ref().unwrap().get_path(), "/a.rs");
}

#[test]
fn save_to_new_file_replaces_open_file() {
    let mut current = file("/a.rs", "old");
    let meta = ActiveMetadata::new("/b.rs".to_string(), b"text");
    assert!(apply_save_action(&mut current, SaveAction::New(meta), b"text"));
    assert_eq!(current.as_ref().unwrap().get_path(), "/b.rs");
    assert!(!has_unsaved_changes(Some("text"), &current));
}

#[test]
fn saved_without_open_file_and_cancelled_save_change_nothing() {
    let mut none: Option<ActiveMetadata> = None;
    assert!(!apply_save_action(&mut none, SaveAction::Saved, b"x"));
    assert!(none.is_none());
    let mut current = file("/a.rs", "old");
    assert!(!apply_save_action(&mut current, SaveAction::Canceled, b"new"));
    assert!(current.as_ref().unwrap().is_same_as(b"old"));
}

#[test]
fn choosing_project_folders() {
    let mut project: Option<ProjectMetadata> = None;
    assert_eq!(choose_project_folder(&mut project, "/f".to_string(), false, true), ProjectChoice::Ignored);
    assert!(project.is_none());
    assert_eq!(choose_project_folder(&mut project, "/d".to_string(), true, false), ProjectChoice::NotACrate);
    assert!(project.is_none());
    assert_eq!(choose_project_folder(&mut project, "/c".to_string(), true, true), ProjectChoice::Opened);
    assert_eq!(project.as_ref().unwrap().get_path(), "/c");
    assert_eq!(choose_project_folder(&mut project, "/e".to_string(), true, false), ProjectChoice::NotACrate);
    assert_eq!(project.as_ref().unwrap().get_path(), "/c");
}

#[test]
fn recording_created_projects() {
    let mut project = Some(ProjectMetadata::new("/old".to_string()));
    assert!(!record_created_project(&mut project, "/new".to_string(), false));
    assert_eq!(project.as_ref().unwrap().get_path(), "/old");
    assert!(record_created_project(&mut project, "/new".to_string(), true));
    assert_eq!(project.as_ref().unwrap().get_path(), "/new");
}
