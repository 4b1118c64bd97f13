//! What the presentation layer decides: which listing a panel shows, when a
//! regained focus calls for a new scan, and which confirmation to show.

use vstd::prelude::*;
use crate::model::{bundles_view, find_bundle, first_named, AppState};
use crate::save_bundle::SaveBundle;

verus! {

/// Which of the two listings a panel shows.
#[derive(PartialEq, Eq, Structural, Clone, Copy, Debug)]
pub enum SaveDirType {
    GameSave,
    BackupSave,
}

/// Tracks the window's focus from one frame to the next.
pub struct FocusTracker {
    pub had_focus: bool,
}

impl FocusTracker {
    pub fn new() -> (r: FocusTracker)
        ensures
            !r.had_focus,
    {
        FocusTracker { had_focus: false }
    }

    /// Records this frame's focus; true exactly when the window went from
    /// unfocused to focused, which calls for one new scan.
    pub fn on_frame(&mut self, has_focus: bool) -> (regained: bool)
        ensures
            regained == (has_focus && !old(self).had_focus),
            final(self).had_focus == has_focus,
    {
        let regained = has_focus && !self.had_focus;
        self.had_focus = has_focus;
        regained
    }
}

impl AppState {
    /// The listing a panel of the given kind shows.
    pub fn save_bundles(&self, kind: SaveDirType) -> (r: &Vec<SaveBundle>)
        ensures
            kind == SaveDirType::GameSave ==> r == &self.game_save_bundles,
            kind == SaveDirType::BackupSave ==> r == &self.backup_save_bundles,
    {
        match kind {
            SaveDirType::GameSave => &self.game_save_bundles,
            SaveDirType::BackupSave => &self.backup_save_bundles,
        }
    }

    /// For a pending restore, the positions of the backup and of the active
    /// save it would overwrite; the confirmation is shown only when both are
    /// listed.
    pub fn restore_prompt(&self) -> (r: Option<(usize, usize)>)
        ensures
            match self.confirm_restore_backup_name {
                None => r is None,
                Some(n) => match (
                    first_named(bundles_view(self.backup_save_bundles@), n@),
                    first_named(bundles_view(self.game_save_bundles@), n@),
                ) {
                    (Some(b), Some(g)) => r matches Some((rb, rg)) && rb == b && rg == g,
                    _ => r is None,
                },
            },
    {
        match &self.confirm_restore_backup_name {
            None => None,
            Some(n) => {
                let backup = find_bundle(&self.backup_save_bundles, n);
                let game = find_bundle(&self.game_save_bundles, n);
                match (backup, game) {
                    (Some(b), Some(g)) => Some((b, g)),
                    _ => None,
                }
            },
        }
    }

    /// For a pending deletion, the position of the backup; the
    /// confirmation is shown only when it is listed.
    pub fn delete_prompt(&self) -> (r: Option<usize>)
        ensures
            match self.confirm_backup_deletion_name {
                None => r is None,
                Some(n) => match first_named(bundles_view(self.backup_save_bundles@), n@) {
                    Some(b) => r == Some(b as usize),
                    None => r is None,
                },
            },
    {
        match &self.confirm_backup_deletion_name {
            None => None,
            Some(n) => find_bundle(&self.backup_save_bundles, n),
        }
    }
}

} // verus!
