//! The controller: the only writer of the application state.
//!
//! Messages are handled one at a time, in arrival order. `handle_events`
//! decides what one message asks for and returns the filesystem work, if
//! any, as a `Command`; the caller performs it without holding the state and
//! hands back what happened through `on_copy_finished`, `on_delete_finished`
//! or `on_rescanned`.

use vstd::prelude::*;
use crate::fs_util::{
    copy_effect, lemma_backup_twice_same_as_once, lemma_copy_with_overwrite_replaces_destination,
    lemma_copy_without_overwrite_keeps_destination, subtree, wf_tree, Node, RootModel,
    SaveManagerError,
};
use crate::location::base_name;
use crate::model::{
    bundles_view, find_bundle, first_named, has_bundle, lemma_first_named, AppState, StateView,
};
use crate::save_bundle::{BundleView, SaveBundle};

verus! {

#[derive(Clone, Debug)]
pub enum ControllerError {
    BackupFailed(String),
    DeleteBackupFailed(String),
    RestoreBackupFailed(String),
}

#[derive(Clone, Debug)]
pub enum AppEvent {
    UpdateSaveDirectory(String),
    UpdateBackupDirectory(String),
    RefreshSaves,
    BackupSave(String),
    RequestRestoreBackup(String),
    ConfirmRestoreBackup(String),
    CancelRestoreBackup,
    RequestDeleteBackup(String),
    ConfirmDeleteBackup(String),
    CancelDeleteBackup,
    Exit,
}

/// Why a copy is made.
#[derive(PartialEq, Eq, Structural, Clone, Copy, Debug)]
pub enum CopyPurpose {
    /// An active save is copied to the backups, replacing one of its name.
    Backup,
    /// A backup is copied to the saves, unless a save of its name exists.
    RestoreRequest,
    /// A backup is copied to the saves, replacing the save of its name.
    RestoreConfirm,
}

/// Copy the directory `source` under `destination_root`.
#[derive(Clone, Debug)]
pub struct CopyJob {
    pub purpose: CopyPurpose,
    /// The name of the bundle copied.
    pub name: String,
    pub source: String,
    pub destination_root: String,
    pub overwrite: bool,
}

/// Remove the backup directory `location` and all it holds.
#[derive(Clone, Debug)]
pub struct DeleteJob {
    pub name: String,
    pub location: String,
}

/// The filesystem work a message asks for.
#[derive(Clone, Debug)]
pub enum Command {
    Nothing,
    /// Scan both roots again and hand the listings to `on_rescanned`.
    Rescan,
    /// Copy, then hand the result to `on_copy_finished`.
    Copy(CopyJob),
    /// Delete, then hand the result to `on_delete_finished`.
    Delete(DeleteJob),
    /// Stop taking messages.
    Stop,
}

pub struct AppController {
    pub state: AppState,
}

pub enum EventView {
    UpdateSaveDirectory(Seq<char>),
    UpdateBackupDirectory(Seq<char>),
    RefreshSaves,
    BackupSave(Seq<char>),
    RequestRestoreBackup(Seq<char>),
    ConfirmRestoreBackup(Seq<char>),
    CancelRestoreBackup,
    RequestDeleteBackup(Seq<char>),
    ConfirmDeleteBackup(Seq<char>),
    CancelDeleteBackup,
    Exit,
}

impl View for AppEvent {
    type V = EventView;

    open spec fn view(&self) -> EventView {
        match self {
            AppEvent::UpdateSaveDirectory(d) => EventView::UpdateSaveDirectory(d@),
            AppEvent::UpdateBackupDirectory(d) => EventView::UpdateBackupDirectory(d@),
            AppEvent::RefreshSaves => EventView::RefreshSaves,
            AppEvent::BackupSave(n) => EventView::BackupSave(n@),
            AppEvent::RequestRestoreBackup(n) => EventView::RequestRestoreBackup(n@),
            AppEvent::ConfirmRestoreBackup(n) => EventView::ConfirmRestoreBackup(n@),
            AppEvent::CancelRestoreBackup => EventView::CancelRestoreBackup,
            AppEvent::RequestDeleteBackup(n) => EventView::RequestDeleteBackup(n@),
            AppEvent::ConfirmDeleteBackup(n) => EventView::ConfirmDeleteBackup(n@),
            AppEvent::CancelDeleteBackup => EventView::CancelDeleteBackup,
            AppEvent::Exit => EventView::Exit,
        }
    }
}

pub struct CopyJobView {
    pub purpose: CopyPurpose,
    pub name: Seq<char>,
    pub source: Seq<char>,
    pub destination_root: Seq<char>,
    pub overwrite: bool,
}

impl View for CopyJob {
    type V = CopyJobView;

    open spec fn view(&self) -> CopyJobView {
        CopyJobView {
            purpose: self.purpose,
            name: self.name@,
            source: self.source@,
            destination_root: self.destination_root@,
            overwrite: self.overwrite,
        }
    }
}

pub enum CommandView {
    Nothing,
    Rescan,
    Copy(CopyJobView),
    Delete { name: Seq<char>, location: Seq<char> },
    Stop,
}

pub enum ControllerErrorView {
    BackupFailed(Seq<char>),
    DeleteBackupFailed(Seq<char>),
    RestoreBackupFailed(Seq<char>),
}

pub open spec fn reply_view(r: Result<Command, ControllerError>) -> Result<CommandView, ControllerErrorView> {
    match r {
        Ok(Command::Nothing) => Ok(CommandView::Nothing),
        Ok(Command::Rescan) => Ok(CommandView::Rescan),
        Ok(Command::Copy(j)) => Ok(CommandView::Copy(j@)),
        Ok(Command::Delete(j)) => Ok(CommandView::Delete { name: j.name@, location: j.location@ }),
        Ok(Command::Stop) => Ok(CommandView::Stop),
        Err(ControllerError::BackupFailed(m)) => Err(ControllerErrorView::BackupFailed(m@)),
        Err(ControllerError::DeleteBackupFailed(m)) => Err(ControllerErrorView::DeleteBackupFailed(m@)),
        Err(ControllerError::RestoreBackupFailed(m)) => Err(ControllerErrorView::RestoreBackupFailed(m@)),
    }
}

pub open spec fn missing_game_message(name: Seq<char>) -> Seq<char> {
    "Game Save bundle with name `"@ + name + "` not found"@
}

pub open spec fn missing_backup_message(name: Seq<char>) -> Seq<char> {
    "Backup Save bundle with name `"@ + name + "` not found"@
}

/// The text of a copy error.
pub open spec fn sync_message(e: SaveManagerError) -> Seq<char> {
    match e {
        SaveManagerError::SaveExists => "Save already exists"@,
        SaveManagerError::IOError(m) => "IO error: "@ + m@,
        SaveManagerError::FsExtraError(m) => "FsExtra error: "@ + m@,
    }
}

/// The state after handling `e`.
pub open spec fn after_event(s: StateView, e: EventView) -> StateView {
    match e {
        EventView::UpdateSaveDirectory(d) => StateView { save_directory: d, ..s },
        EventView::UpdateBackupDirectory(d) => StateView { backup_directory: d, ..s },
        EventView::ConfirmRestoreBackup(n) => if has_bundle(s.backups, n) {
            s
        } else {
            StateView { pending_restore: None, ..s }
        },
        EventView::CancelRestoreBackup => StateView { pending_restore: None, ..s },
        EventView::RequestDeleteBackup(n) => if has_bundle(s.backups, n) {
            StateView { pending_delete: Some(n), ..s }
        } else {
            s
        },
        EventView::ConfirmDeleteBackup(n) => if has_bundle(s.backups, n) {
            s
        } else {
            StateView { pending_delete: None, ..s }
        },
        EventView::CancelDeleteBackup => StateView { pending_delete: None, ..s },
        _ => s,
    }
}

/// The copy of the listed backup named `n` to the saves.
pub open spec fn restore_job(s: StateView, n: Seq<char>, purpose: CopyPurpose) -> CopyJobView {
    CopyJobView {
        purpose,
        name: n,
        source: s.backups[first_named(s.backups, n)->0].location,
        destination_root: s.save_directory,
        overwrite: purpose == CopyPurpose::RestoreConfirm,
    }
}

/// What handling `e` returns.
pub open spec fn reply_to(s: StateView, e: EventView) -> Result<CommandView, ControllerErrorView> {
    match e {
        EventView::UpdateSaveDirectory(_) => Ok(CommandView::Rescan),
        EventView::UpdateBackupDirectory(_) => Ok(CommandView::Rescan),
        EventView::RefreshSaves => Ok(CommandView::Rescan),
        EventView::BackupSave(n) => match first_named(s.game, n) {
            Some(i) => Ok(
                CommandView::Copy(
                    CopyJobView {
                        purpose: CopyPurpose::Backup,
                        name: n,
                        source: s.game[i].location,
                        destination_root: s.backup_directory,
                        overwrite: true,
                    },
                ),
            ),
            None => Err(ControllerErrorView::BackupFailed(missing_game_message(n))),
        },
        EventView::RequestRestoreBackup(n) => if has_bundle(s.backups, n) {
            Ok(CommandView::Copy(restore_job(s, n, CopyPurpose::RestoreRequest)))
        } else {
            Err(ControllerErrorView::RestoreBackupFailed(missing_backup_message(n)))
        },
        EventView::ConfirmRestoreBackup(n) => if has_bundle(s.backups, n) {
            Ok(CommandView::Copy(restore_job(s, n, CopyPurpose::RestoreConfirm)))
        } else {
            Err(ControllerErrorView::RestoreBackupFailed(missing_backup_message(n)))
        },
        EventView::CancelRestoreBackup => Ok(CommandView::Nothing),
        EventView::RequestDeleteBackup(n) => if has_bundle(s.backups, n) {
            Ok(CommandView::Nothing)
        } else {
            Err(ControllerErrorView::DeleteBackupFailed(missing_backup_message(n)))
        },
        EventView::ConfirmDeleteBackup(n) => match first_named(s.backups, n) {
            Some(i) => Ok(CommandView::Delete { name: n, location: s.backups[i].location }),
            None => Err(ControllerErrorView::DeleteBackupFailed(missing_backup_message(n))),
        },
        EventView::CancelDeleteBackup => Ok(CommandView::Nothing),
        EventView::Exit => Ok(CommandView::Stop),
    }
}

/// The state after a copy made for `job` returned `result`.
pub open spec fn after_copy(s: StateView, job: CopyJobView, result: Result<(), SaveManagerError>) -> StateView {
    if job.purpose == CopyPurpose::RestoreConfirm {
        StateView { pending_restore: None, ..s }
    } else if job.purpose == CopyPurpose::RestoreRequest && result == Err::<(), SaveManagerError>(
        SaveManagerError::SaveExists,
    ) && has_bundle(s.backups, job.name) {
        StateView { pending_restore: Some(job.name), ..s }
    } else {
        s
    }
}

/// What taking back the result of a copy made for `job` returns.
pub open spec fn copy_reply(s: StateView, job: CopyJobView, result: Result<(), SaveManagerError>) -> Result<
    CommandView,
    ControllerErrorView,
> {
    match result {
        Ok(()) => Ok(CommandView::Rescan),
        Err(e) => if job.purpose == CopyPurpose::Backup {
            Err(ControllerErrorView::BackupFailed(sync_message(e)))
        } else if job.purpose == CopyPurpose::RestoreRequest && e == SaveManagerError::SaveExists {
            if has_bundle(s.backups, job.name) {
                Ok(CommandView::Rescan)
            } else {
                Err(ControllerErrorView::RestoreBackupFailed(missing_backup_message(job.name)))
            }
        } else {
            Err(ControllerErrorView::RestoreBackupFailed(sync_message(e)))
        },
    }
}

/// What taking back the result of a delete returns.
pub open spec fn delete_reply(result: Result<(), String>) -> Result<CommandView, ControllerErrorView> {
    match result {
        Ok(()) => Ok(CommandView::Rescan),
        Err(m) => Err(ControllerErrorView::DeleteBackupFailed(m@)),
    }
}

fn missing_bundle_message(prefix: &str, name: &String) -> (r: String)
    ensures
        r@ == prefix@ + name@ + "` not found"@,
{
    String::from_str(prefix).concat(name.as_str()).concat("` not found")
}

impl SaveManagerError {
    /// The error as text.
    pub fn message(&self) -> (r: String)
        ensures
            r@ == sync_message(*self),
    {
        match self {
            SaveManagerError::SaveExists => String::from_str("Save already exists"),
            SaveManagerError::IOError(m) => String::from_str("IO error: ").concat(m.as_str()),
            SaveManagerError::FsExtraError(m) => String::from_str("FsExtra error: ").concat(
                m.as_str(),
            ),
        }
    }
}

impl ControllerError {
    /// The error as text.
    pub fn message(&self) -> (r: String)
        ensures
            r@ == match self {
                ControllerError::BackupFailed(m) => "Backup failed: "@ + m@,
                ControllerError::DeleteBackupFailed(m) => "Delete backup failed: "@ + m@,
                ControllerError::RestoreBackupFailed(m) => "Restore backup failed: "@ + m@,
            },
    {
        match self {
            ControllerError::BackupFailed(m) => String::from_str("Backup failed: ").concat(m.as_str()),
            ControllerError::DeleteBackupFailed(m) => String::from_str("Delete backup failed: ").concat(
                m.as_str(),
            ),
            ControllerError::RestoreBackupFailed(m) => String::from_str(
                "Restore backup failed: ",
            ).concat(m.as_str()),
        }
    }
}

fn missing_backup(name: &String) -> (r: String)
    ensures
        r@ == missing_backup_message(name@),
{
    missing_bundle_message("Backup Save bundle with name `", name)
}

impl AppController {
    pub fn new(state: AppState) -> (r: AppController)
        ensures
            r.state@ == state@,
    {
        AppController { state }
    }

    /// Handles one message: updates the state and returns the filesystem
    /// work the message asks for, or why it cannot be done.
    pub fn handle_events(&mut self, event: AppEvent) -> (r: Result<Command, ControllerError>)
        ensures
            final(self).state@ == after_event(old(self).state@, event@),
            reply_view(r) == reply_to(old(self).state@, event@),
            old(self).state@.wf() ==> final(self).state@.wf(),
    {
        let ghost s = self.state@;
        match event {
            AppEvent::UpdateSaveDirectory(dir) => {
                self.state.update_save_directory(dir);
                Ok(Command::Rescan)
            },
            AppEvent::UpdateBackupDirectory(dir) => {
                self.state.update_backup_directory(dir);
                Ok(Command::Rescan)
            },
            AppEvent::RefreshSaves => Ok(Command::Rescan),
            AppEvent::BackupSave(name) => {
                proof {
                    lemma_first_named(s.game, name@);
                }
                match find_bundle(&self.state.game_save_bundles, &name) {
                    Some(i) => {
                        assert(s.game[i as int] == self.state.game_save_bundles@[i as int]@);
                        let source = self.state.game_save_bundles[i].location.clone();
                        let destination_root = self.state.backup_directory.clone();
                        Ok(
                            Command::Copy(
                                CopyJob {
                                    purpose: CopyPurpose::Backup,
                                    name,
                                    source,
                                    destination_root,
                                    overwrite: true,
                                },
                            ),
                        )
                    },
                    None => Err(
                        ControllerError::BackupFailed(
                            missing_bundle_message("Game Save bundle with name `", &name),
                        ),
                    ),
                }
            },
            AppEvent::RequestRestoreBackup(name) => {
                proof {
                    lemma_first_named(s.backups, name@);
                }
                match find_bundle(&self.state.backup_save_bundles, &name) {
                    Some(i) => {
                        assert(s.backups[i as int] == self.state.backup_save_bundles@[i as int]@);
                        let source = self.state.backup_save_bundles[i].location.clone();
                        let destination_root = self.state.save_directory.clone();
                        Ok(
                            Command::Copy(
                                CopyJob {
                                    purpose: CopyPurpose::RestoreRequest,
                                    name,
                                    source,
                                    destination_root,
                                    overwrite: false,
                                },
                            ),
                        )
                    },
                    None => Err(ControllerError::RestoreBackupFailed(missing_backup(&name))),
                }
            },
            AppEvent::ConfirmRestoreBackup(name) => {
                proof {
                    lemma_first_named(s.backups, name@);
                }
                match find_bundle(&self.state.backup_save_bundles, &name) {
                    Some(i) => {
                        assert(s.backups[i as int] == self.state.backup_save_bundles@[i as int]@);
                        let source = self.state.backup_save_bundles[i].location.clone();
                        let destination_root = self.state.save_directory.clone();
                        Ok(
                            Command::Copy(
                                CopyJob {
                                    purpose: CopyPurpose::RestoreConfirm,
                                    name,
                                    source,
                                    destination_root,
                                    overwrite: true,
                                },
                            ),
                        )
                    },
                    None => {
                        self.state.clear_restore_confirmation();
                        Err(ControllerError::RestoreBackupFailed(missing_backup(&name)))
                    },
                }
            },
            AppEvent::CancelRestoreBackup => {
                self.state.clear_restore_confirmation();
                Ok(Command::Nothing)
            },
            AppEvent::RequestDeleteBackup(name) => {
                proof {
                    lemma_first_named(s.backups, name@);
                }
                match find_bundle(&self.state.backup_save_bundles, &name) {
                    Some(_) => {
                        self.state.confirm_delete_backup(name);
                        Ok(Command::Nothing)
                    },
                    None => Err(ControllerError::DeleteBackupFailed(missing_backup(&name))),
                }
            },
            AppEvent::ConfirmDeleteBackup(name) => {
                proof {
                    lemma_first_named(s.backups, name@);
                }
                match find_bundle(&self.state.backup_save_bundles, &name) {
                    Some(i) => {
                        assert(s.backups[i as int] == self.state.backup_save_bundles@[i as int]@);
                        let location = self.state.backup_save_bundles[i].location.clone();
                        Ok(Command::Delete(DeleteJob { name, location }))
                    },
                    None => {
                        self.state.clear_delete_confirmation();
                        Err(ControllerError::DeleteBackupFailed(missing_backup(&name)))
                    },
                }
            },
            AppEvent::CancelDeleteBackup => {
                self.state.clear_delete_confirmation();
                Ok(Command::Nothing)
            },
            AppEvent::Exit => Ok(Command::Stop),
        }
    }

    /// Takes back what a copy made for `job` returned.
    pub fn on_copy_finished(&mut self, job: &CopyJob, result: &Result<(), SaveManagerError>) -> (r:
        Result<Command, ControllerError>)
        ensures
            final(self).state@ == after_copy(old(self).state@, job@, *result),
            reply_view(r) == copy_reply(old(self).state@, job@, *result),
            old(self).state@.wf() ==> final(self).state@.wf(),
    {
        proof {
            lemma_first_named(self.state@.backups, job.name@);
        }
        match result {
            Ok(()) => {
                if job.purpose == CopyPurpose::RestoreConfirm {
                    self.state.clear_restore_confirmation();
                }
                Ok(Command::Rescan)
            },
            Err(e) => {
                if job.purpose == CopyPurpose::RestoreConfirm {
                    self.state.clear_restore_confirmation();
                }
                match job.purpose {
                    CopyPurpose::Backup => Err(ControllerError::BackupFailed(e.message())),
                    CopyPurpose::RestoreRequest => match e {
                        SaveManagerError::SaveExists => {
                            if find_bundle(&self.state.backup_save_bundles, &job.name).is_some() {
                                self.state.confirm_restore_backup(job.name.clone());
                                Ok(Command::Rescan)
                            } else {
                                Err(ControllerError::RestoreBackupFailed(missing_backup(&job.name)))
                            }
                        },
                        _ => Err(ControllerError::RestoreBackupFailed(e.message())),
                    },
                    CopyPurpose::RestoreConfirm => Err(
                        ControllerError::RestoreBackupFailed(e.message()),
                    ),
                }
            },
        }
    }

    /// Takes back what deleting a backup returned. The pending deletion is
    /// cleared either way.
    pub fn on_delete_finished(&mut self, result: &Result<(), String>) -> (r: Result<
        Command,
        ControllerError,
    >)
        ensures
            final(self).state@ == (StateView { pending_delete: None, ..old(self).state@ }),
            reply_view(r) == delete_reply(*result),
            old(self).state@.wf() ==> final(self).state@.wf(),
    {
        self.state.clear_delete_confirmation();
        match result {
            Ok(()) => Ok(Command::Rescan),
            Err(m) => Err(ControllerError::DeleteBackupFailed(m.clone())),
        }
    }

    /// Takes the listings of a new scan of both roots.
    pub fn on_rescanned(&mut self, game: Vec<SaveBundle>, backups: Vec<SaveBundle>)
        ensures
            final(self).state@ == old(self).state@.refreshed(bundles_view(game@), bundles_view(backups@)),
            final(self).state@.wf(),
    {
        self.state.refresh_save_bundles(game, backups);
    }
}

/// Restoring a backup `B` over an active save `A` of the same name, with no
/// other message between the request and the confirmation. Nothing is
/// pending before. The request's copy may not overwrite, so it fails with
/// `SaveExists`, leaves the saves as they were and makes `B` pending; the scan
/// that follows finds the backups unchanged. The confirmation's copy then
/// replaces `A` with exactly what `B` holds, and nothing is pending after.
pub proof fn lemma_restore_protocol(
    s: StateView,
    name: Seq<char>,
    game: Seq<BundleView>,
    save_root: RootModel,
    backup_contents: Map<Seq<Seq<char>>, Node>,
)
    requires
        s.wf(),
        s.pending_restore is None,
        has_bundle(s.backups, name),
        base_name(s.backups[first_named(s.backups, name)->0].location) matches Some(d)
            && save_root.entries.contains_key(seq![d]),
        wf_tree(save_root.entries),
        wf_tree(backup_contents),
    ensures
        ({
            let request = EventView::RequestRestoreBackup(name);
            let confirm = EventView::ConfirmRestoreBackup(name);
            let j1 = restore_job(s, name, CopyPurpose::RestoreRequest);
            let d = base_name(j1.source)->0;
            let s1 = after_event(s, request);
            let refused = copy_effect(save_root, d, backup_contents, j1.overwrite);
            let s2 = after_copy(s1, j1, refused.1);
            let s3 = s2.refreshed(game, s.backups);
            let j2 = restore_job(s3, name, CopyPurpose::RestoreConfirm);
            let s4 = after_event(s3, confirm);
            let done = copy_effect(refused.0, base_name(j2.source)->0, backup_contents, j2.overwrite);
            &&& reply_to(s, request) == Ok::<CommandView, ControllerErrorView>(CommandView::Copy(j1))
            &&& !j1.overwrite && j1.destination_root == s.save_directory
            &&& refused == (save_root, Err::<(), SaveManagerError>(SaveManagerError::SaveExists))
            &&& copy_reply(s1, j1, refused.1) == Ok::<CommandView, ControllerErrorView>(
                CommandView::Rescan,
            )
            &&& s2.pending_restore == Some(name)
            &&& s3.pending_restore == Some(name)
            &&& reply_to(s3, confirm) == Ok::<CommandView, ControllerErrorView>(
                CommandView::Copy(j2),
            )
            &&& j2.overwrite && j2.source == j1.source && j2.destination_root == s.save_directory
            &&& done.1 is Ok
            &&& subtree(done.0.entries, d) == backup_contents
            &&& copy_reply(s4, j2, done.1) == Ok::<CommandView, ControllerErrorView>(
                CommandView::Rescan,
            )
            &&& after_copy(s4, j2, done.1).pending_restore is None
        }),
{
    let j1 = restore_job(s, name, CopyPurpose::RestoreRequest);
    let d = base_name(j1.source)->0;
    lemma_copy_without_overwrite_keeps_destination(save_root, d, backup_contents);
    lemma_copy_with_overwrite_replaces_destination(save_root, d, backup_contents);
}

/// Backing up the same active save twice in a row, with nothing in between:
/// the second message asks for the same copy as the first, and the backup it
/// leaves holds the same as the one the first left.
pub proof fn lemma_backup_twice(
    s: StateView,
    name: Seq<char>,
    backup_root: RootModel,
    save_contents: Map<Seq<Seq<char>>, Node>,
)
    requires
        first_named(s.game, name) is Some,
        base_name(s.game[first_named(s.game, name)->0].location) is Some,
        wf_tree(backup_root.entries),
        wf_tree(save_contents),
    ensures
        ({
            let backup = EventView::BackupSave(name);
            let first = reply_to(s, backup);
            let j = first->Ok_0->Copy_0;
            let d = base_name(j.source)->0;
            let s1 = after_copy(after_event(s, backup), j, Ok(()));
            let once = copy_effect(backup_root, d, save_contents, j.overwrite).0;
            let twice = copy_effect(once, d, save_contents, j.overwrite).0;
            &&& first matches Ok(CommandView::Copy(j)) && j.overwrite
            &&& j.destination_root == s.backup_directory
            &&& s1 == s
            &&& reply_to(s1, backup) == first
            &&& subtree(twice.entries, d) == subtree(once.entries, d)
        }),
{
    let j = reply_to(s, EventView::BackupSave(name))->Ok_0->Copy_0;
    let d = base_name(j.source)->0;
    lemma_backup_twice_same_as_once(backup_root, d, save_contents);
}

} // verus!
