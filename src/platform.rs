//! Default locations: where the game keeps its saves on each platform, and
//! where backups go.
//!
//! The platform and the user's home directory are handed in by the caller,
//! which reads them from the running system.

use vstd::prelude::*;
use crate::fs_util::{first_existing, first_existing_dir};
use crate::location::{join, joined};
use crate::model::{name_view, AppState};

verus! {

/// The application's name among the platform's data directories.
pub const APP_ID: &'static str = "rsm";

#[derive(PartialEq, Eq, Structural, Clone, Copy, Debug)]
pub enum Platform {
    Windows,
    MacOs,
    Linux,
    Other,
}

/// Where the game keeps its saves below the user's home directory (the
/// user profile on Windows).
pub open spec fn save_path_below_home(platform: Platform) -> Option<Seq<char>> {
    match platform {
        Platform::Windows => Some("AppData\\LocalLow\\smiwork\\REPO\\saves"@),
        Platform::MacOs => Some(
            "Library/Application Support/CrossOver/Bottles/Steam/drive_c/users/crossover/AppData/LocalLow/semiwork/Repo/saves"@,
        ),
        Platform::Linux => Some(
            ".steam/debian-installation/steamapps/compatdata/3241660/pfx/drive_c/users/steamuser/AppData/LocalLow/semiwork/Repo/saves/"@,
        ),
        Platform::Other => None,
    }
}

/// The candidate save directories, most likely first.
pub open spec fn repo_save_paths(platform: Platform, home: Option<Seq<char>>) -> Seq<Seq<char>> {
    match (save_path_below_home(platform), home) {
        (Some(below), Some(h)) => seq![joined(h, below)],
        _ => Seq::empty(),
    }
}

/// Where backups go when the platform gives no data directory.
pub open spec fn fallback_backup_directory(home: Option<Seq<char>>) -> Seq<char> {
    let h = match home {
        Some(h) => h,
        None => Seq::empty(),
    };
    joined(h, ".local/share/rsm/backups"@)
}

pub open spec fn backups_below(data_dir: Seq<char>) -> Seq<char> {
    joined(data_dir, "backups"@)
}

/// The candidate directories where the game keeps its saves, given the
/// platform and the user's home directory (the user profile on Windows).
/// There are none on other platforms or without a home directory.
pub fn get_repo_save_paths(platform: Platform, home: Option<String>) -> (r: Vec<String>)
    ensures
        r@.map_values(|s: String| s@) == repo_save_paths(platform, name_view(home)),
{
    let below: &str = match platform {
        Platform::Windows => "AppData\\LocalLow\\smiwork\\REPO\\saves",
        Platform::MacOs => "Library/Application Support/CrossOver/Bottles/Steam/drive_c/users/crossover/AppData/LocalLow/semiwork/Repo/saves",
        Platform::Linux => ".steam/debian-installation/steamapps/compatdata/3241660/pfx/drive_c/users/steamuser/AppData/LocalLow/semiwork/Repo/saves/",
        Platform::Other => {
            let r: Vec<String> = Vec::new();
            assert(r@.map_values(|s: String| s@) =~= Seq::<Seq<char>>::empty());
            return r;
        },
    };
    match home {
        Some(h) => {
            let mut r: Vec<String> = Vec::new();
            r.push(join(h.as_str(), below));
            assert(r@.map_values(|s: String| s@) =~= repo_save_paths(platform, name_view(Some(h))));
            r
        },
        None => {
            let r: Vec<String> = Vec::new();
            assert(r@.map_values(|s: String| s@) =~= Seq::<Seq<char>>::empty());
            r
        },
    }
}

/// Relies on `directories_next::ProjectDirs::from` and its `data_dir`: the
/// platform's data directory for the application, where a home directory
/// can be found. It depends on the environment, so nothing is stated of it.
#[verifier::external_body]
fn project_data_dir(application: &str) -> (r: Option<String>) {
    match directories_next::ProjectDirs::from("", "", application) {
        Some(dirs) => Some(dirs.data_dir().to_string_lossy().into_owned()),
        None => None,
    }
}

/// The backup directory, given the platform's data directory for the
/// application if there is one: `backups` below it, else a fixed path below
/// the user's home directory.
pub fn backup_directory_from(data_dir: Option<String>, home: Option<String>) -> (r: String)
    ensures
        r@ == match data_dir {
            Some(d) => backups_below(d@),
            None => fallback_backup_directory(name_view(home)),
        },
{
    match data_dir {
        Some(d) => join(d.as_str(), "backups"),
        None => {
            let h = match home {
                Some(h) => h,
                None => String::new(),
            };
            join(h.as_str(), ".local/share/rsm/backups")
        },
    }
}

/// The default backup directory: `backups` below the platform's data
/// directory for the application, else the fixed path below `home`.
pub fn default_backup_directory(home: Option<String>) -> (r: String)
    ensures
        r@ == fallback_backup_directory(name_view(home)) || exists|d: Seq<char>|
            r@ == backups_below(d),
{
    let data_dir = project_data_dir(APP_ID);
    backup_directory_from(data_dir, home)
}

/// The state the application starts with: the first candidate save
/// directory that was found to exist (none gives an empty path), the default
/// backup directory, and nothing listed or pending.
pub fn default_state(save_candidates: Vec<(String, bool)>, home: Option<String>) -> (r: AppState)
    ensures
        r@.save_directory == match first_existing(save_candidates@) {
            Some(p) => p,
            None => Seq::empty(),
        },
        r@.backup_directory == fallback_backup_directory(name_view(home)) || exists|d: Seq<char>|
            r@.backup_directory == backups_below(d),
        r@.game.len() == 0,
        r@.backups.len() == 0,
        r@.pending_restore is None,
        r@.pending_delete is None,
{
    let save_directory = match first_existing_dir(save_candidates) {
        Some(p) => p,
        None => String::new(),
    };
    AppState::new(save_directory, default_backup_directory(home))
}

} // verus!
