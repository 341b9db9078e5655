use rozsda::state::{ActiveMetadata, ProjectMetadata};

#[test]
fn loaded_file_recognises_its_contents() {
    let meta = ActiveMetadata::new("/home/user/src/main.rs".to_string(), b"fn main() {}\n");
    assert!(meta.is_same_as(b"fn main() {}\n"));
}

#[test]
fn loaded_file_rejects_other_contents() {
    let meta = ActiveMetadata::new("/home/user/src/main.rs".to_string(), b"fn main() {}\n");
    assert!(!meta.is_same_as(b"fn main() { }\n"));
    assert!(!meta.is_same_as(b""));
}

#[test]
fn empty_contents_are_recognised() {
    let meta = ActiveMetadata::new("/tmp/empty.rs".to_string(), b"");
    assert!(meta.is_same_as(b""));
    assert!(!meta.is_same_as(b"x"));
}

#[test]
fn set_sum_records_new_contents_and_keeps_path() {
    let mut meta = ActiveMetadata::new("/tmp/a.rs".to_string(), b"old");
    meta.set_sum(b"new");
    assert!(meta.is_same_as(b"new"));
    assert!(!meta.is_same_as(b"old"));
    assert_eq!(meta.get_path(), "/tmp/a.rs");
}

#[test]
fn active_file_path_and_dir() {
    let meta = ActiveMetadata::new("/home/user/proj/src/lib.rs".to_string(), b"");
    assert_eq!(meta.get_path(), "/home/user/proj/src/lib.rs");
    assert_eq!(meta.get_dir(), Some("/home/user/proj/src".to_string()));
}

#[test]
fn dir_of_relative_and_root_paths() {
    assert_eq!(ActiveMetadata::new("main.rs".to_string(), b"").get_dir(), Some(String::new()));
    assert_eq!(ActiveMetadata::new("/".to_string(), b"").get_dir(), None);
    assert_eq!(ActiveMetadata::new(String::new(), b"").get_dir(), None);
}

#[test]
fn project_path_and_name() {
    let project = ProjectMetadata::new("/home/user/projects/rozsda".to_string());
    assert_eq!(project.get_path(), "/home/user/projects/rozsda");
    assert_eq!(project.get_name(), Some("rozsda".to_string()));
}

#[test]
fn project_name_of_root_and_parent_dir() {
    assert_eq!(ProjectMetadata::new("/".to_string()).get_name(), None);
    assert_eq!(ProjectMetadata::new("/home/..".to_string()).get_name(), None);
    assert_eq!(ProjectMetadata::new("/home/user/crate/".to_string()).get_name(), Some("crate".to_string()));
}
