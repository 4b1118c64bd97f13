use rsm::platform::{backup_directory_from, default_backup_directory, get_repo_save_paths, Platform};

#[test]
fn test_get_repo_save_paths_returns_paths() {
    let paths = get_repo_save_paths(Platform::Linux, Some("/home/player".to_string()));
    assert!(!paths.is_empty(), "Should return at least one potential save path");
    for path in &paths {
        assert!(std::path::Path::new(path).is_absolute(), "All returned paths should be absolute");
    }
}

#[test]
fn save_paths_per_platform() {
    assert_eq!(
        get_repo_save_paths(Platform::Linux, Some("/home/p".to_string())),
        vec!["/home/p/.steam/debian-installation/steamapps/compatdata/3241660/pfx/drive_c/users/steamuser/AppData/LocalLow/semiwork/Repo/saves/".to_string()]
    );
    assert_eq!(
        get_repo_save_paths(Platform::Windows, Some("C:\\Users\\p\\".to_string())),
        vec!["C:\\Users\\p\\AppData\\LocalLow\\smiwork\\REPO\\saves".to_string()]
    );
    assert_eq!(get_repo_save_paths(Platform::MacOs, Some("/Users/p".to_string())).len(), 1);
    assert!(get_repo_save_paths(Platform::Other, Some("/home/p".to_string())).is_empty());
    assert!(get_repo_save_paths(Platform::Linux, None).is_empty());
}

#[test]
fn backup_directory_prefers_data_dir() {
    assert_eq!(
        backup_directory_from(Some("/home/p/.local/share/rsm".to_string()), Some("/home/p".to_string())),
        "/home/p/.local/share/rsm/backups"
    );
    assert_eq!(
        backup_directory_from(None, Some("/home/p".to_string())),
        "/home/p/.local/share/rsm/backups"
    );
    assert_eq!(backup_directory_from(None, None), ".local/share/rsm/backups");
}

#[test]
fn default_backup_directory_ends_in_backups() {
    let dir = default_backup_directory(Some("/home/p".to_string()));
    assert!(dir.ends_with("backups"));
}
