use rsm::fs_util::{destination_dir, first_existing_dir, plan_copy, CopyStep, SaveManagerError};

fn probe(paths: &[std::path::PathBuf]) -> Vec<(String, bool)> {
    paths.iter().map(|p| (p.to_string_lossy().into_owned(), p.exists() && p.is_dir())).collect()
}

#[test]
fn valid_path() {
    let temp_dir = tempfile::tempdir().unwrap();
    let root_path = temp_dir.path().to_path_buf();
    let existing = tempfile::Builder::new().prefix("existing").tempdir_in(&root_path).unwrap();
    let existing_dir = existing.path().to_path_buf();
    let paths = vec![root_path.join("nonexistent1"), existing_dir.clone(), root_path.join("nonexistent2")];

    let result = first_existing_dir(probe(&paths));

    assert!(result.is_some());
    assert_eq!(result.unwrap(), existing_dir.to_string_lossy());
}

#[test]
fn no_valid_path() {
    let temp_dir = tempfile::tempdir().unwrap();
    let root_path = temp_dir.path().to_path_buf();
    let nonexistent_paths = vec![root_path.join("nonexistent1"), root_path.join("nonexistent2")];

    let result = first_existing_dir(probe(&nonexistent_paths));

    assert!(result.is_none(), "Should return None when no paths exist");
}

#[test]
fn first_candidate_that_exists_wins() {
    let candidates = vec![
        ("/a".to_string(), false),
        ("/b".to_string(), true),
        ("/c".to_string(), true),
    ];
    assert_eq!(first_existing_dir(candidates).unwrap(), "/b");
    assert!(first_existing_dir(Vec::new()).is_none());
}

#[test]
fn first_time_succeeds() {
    let result = plan_copy(false, true, false);
    assert!(result.is_ok());
    assert_eq!(result.ok().unwrap(), vec![CopyStep::CreateDestination, CopyStep::CopyContents]);
}

#[test]
fn without_overwrite_fails() {
    let result = plan_copy(false, true, true);
    assert!(matches!(result, Err(SaveManagerError::SaveExists)));
}

#[test]
fn with_overwrite_succeeds() {
    let result = plan_copy(true, true, true);
    assert!(result.is_ok(), "directory copy failed");
    assert_eq!(
        result.ok().unwrap(),
        vec![CopyStep::RemoveDestination, CopyStep::CreateDestination, CopyStep::CopyContents]
    );
}

#[test]
fn missing_root_is_created_first() {
    let steps = plan_copy(false, false, false).ok().unwrap();
    assert_eq!(steps, vec![CopyStep::CreateRoot, CopyStep::CreateDestination, CopyStep::CopyContents]);
}

#[test]
fn backing_up_twice_plans_the_same_replacement() {
    let first = plan_copy(true, true, false).ok().unwrap();
    let second = plan_copy(true, true, true).ok().unwrap();
    assert_eq!(first, vec![CopyStep::CreateDestination, CopyStep::CopyContents]);
    assert_eq!(second, vec![CopyStep::RemoveDestination, CopyStep::CreateDestination, CopyStep::CopyContents]);
}

#[test]
fn destination_is_root_joined_with_source_name() {
    assert_eq!(destination_dir("/saves/SAVE_A", "/backups").unwrap(), "/backups/SAVE_A");
    assert_eq!(destination_dir("/saves/SAVE_A/", "/backups/").unwrap(), "/backups/SAVE_A");
    assert!(destination_dir("/", "/backups").is_none());
}

#[test]
fn copy_error_messages() {
    assert_eq!(SaveManagerError::SaveExists.message(), "Save already exists");
    assert_eq!(SaveManagerError::IOError("denied".to_string()).message(), "IO error: denied");
    assert_eq!(SaveManagerError::FsExtraError("gone".to_string()).message(), "FsExtra error: gone");
}
