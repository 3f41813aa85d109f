use vibe_launch::paths::{join_path, path_is_absolute, prepare_model_path, ExistingPaths};

#[test]
fn absolute_reference_returned_unchanged_even_if_absent() {
    let existing = ExistingPaths::none();
    let r = prepare_model_path(
        &"/somewhere/tiny.bin".to_string(),
        &"/work".to_string(),
        &"/home/user/models".to_string(),
        &existing,
    );
    assert_eq!(r, "/somewhere/tiny.bin");
}

#[test]
fn relative_reference_existing_under_cwd_resolves_to_joined_path() {
    let mut existing = ExistingPaths::none();
    existing.record("/work/tiny.bin".to_string());
    let r = prepare_model_path(
        &"tiny.bin".to_string(),
        &"/work".to_string(),
        &"/home/user/models".to_string(),
        &existing,
    );
    assert_eq!(r, "/work/tiny.bin");
}

#[test]
fn reference_found_under_models_folder_resolves_to_joined_path() {
    let mut existing = ExistingPaths::none();
    existing.record("/home/user/models/tiny.bin".to_string());
    let r = prepare_model_path(
        &"tiny.bin".to_string(),
        &"/work".to_string(),
        &"/home/user/models".to_string(),
        &existing,
    );
    assert_eq!(r, "/home/user/models/tiny.bin");
}

#[test]
fn reference_absent_everywhere_returned_unchanged() {
    let existing = ExistingPaths::none();
    let r = prepare_model_path(
        &"tiny.bin".to_string(),
        &"/work".to_string(),
        &"/home/user/models".to_string(),
        &existing,
    );
    assert_eq!(r, "tiny.bin");
}

#[test]
fn current_directory_wins_over_models_folder() {
    let mut existing = ExistingPaths::none();
    existing.record("/work/tiny.bin".to_string());
    existing.record("/home/user/models/tiny.bin".to_string());
    let r = prepare_model_path(
        &"tiny.bin".to_string(),
        &"/work".to_string(),
        &"/home/user/models".to_string(),
        &existing,
    );
    assert_eq!(r, "/work/tiny.bin");
}

#[test]
fn join_inserts_separator_only_when_needed() {
    assert_eq!(
        join_path(&"/home/user/models".to_string(), &"tiny.bin".to_string()),
        "/home/user/models/tiny.bin"
    );
    assert_eq!(
        join_path(&"/home/user/models/".to_string(), &"tiny.bin".to_string()),
        "/home/user/models/tiny.bin"
    );
    assert_eq!(join_path(&"".to_string(), &"tiny.bin".to_string()), "tiny.bin");
}

#[test]
fn absoluteness_is_a_leading_separator() {
    assert!(path_is_absolute(&"/a/b".to_string()));
    assert!(!path_is_absolute(&"a/b".to_string()));
    assert!(!path_is_absolute(&"".to_string()));
}
