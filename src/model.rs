//! The application state shared between the presentation layer, which only
//! reads snapshots of it, and the controller, which alone changes it.

use vstd::prelude::*;
use crate::save_bundle::{BundleView, SaveBundle};

verus! {

#[derive(Clone, Debug)]
pub struct AppState {
    pub save_directory: String,
    pub backup_directory: String,
    pub game_save_bundles: Vec<SaveBundle>,
    pub backup_save_bundles: Vec<SaveBundle>,
    /// The backup waiting for the operator's approval to overwrite the
    /// active save of the same name.
    pub confirm_restore_backup_name: Option<String>,
    /// The backup waiting for the operator's approval to be deleted.
    pub confirm_backup_deletion_name: Option<String>,
}

pub struct StateView {
    pub save_directory: Seq<char>,
    pub backup_directory: Seq<char>,
    pub game: Seq<BundleView>,
    pub backups: Seq<BundleView>,
    pub pending_restore: Option<Seq<char>>,
    pub pending_delete: Option<Seq<char>>,
}

pub open spec fn bundles_view(v: Seq<SaveBundle>) -> Seq<BundleView> {
    v.map_values(|b: SaveBundle| b@)
}

pub open spec fn name_view(o: Option<String>) -> Option<Seq<char>> {
    match o {
        Some(s) => Some(s@),
        None => None,
    }
}

impl View for AppState {
    type V = StateView;

    open spec fn view(&self) -> StateView {
        StateView {
            save_directory: self.save_directory@,
            backup_directory: self.backup_directory@,
            game: bundles_view(self.game_save_bundles@),
            backups: bundles_view(self.backup_save_bundles@),
            pending_restore: name_view(self.confirm_restore_backup_name),
            pending_delete: name_view(self.confirm_backup_deletion_name),
        }
    }
}

pub open spec fn has_bundle(bundles: Seq<BundleView>, name: Seq<char>) -> bool {
    exists|i: int| 0 <= i < bundles.len() && (#[trigger] bundles[i]).name == name
}

/// The index of the first bundle named `name`.
pub open spec fn first_named(bundles: Seq<BundleView>, name: Seq<char>) -> Option<int>
    decreases bundles.len(),
{
    if bundles.len() == 0 {
        None
    } else if bundles.last().name == name && first_named(bundles.drop_last(), name) is None {
        Some(bundles.len() - 1)
    } else {
        first_named(bundles.drop_last(), name)
    }
}

/// A pending name is kept only while it names a listed backup.
pub open spec fn keep_if_listed(pending: Option<Seq<char>>, backups: Seq<BundleView>) -> Option<
    Seq<char>,
> {
    match pending {
        Some(n) => if has_bundle(backups, n) {
            Some(n)
        } else {
            None
        },
        None => None,
    }
}

impl StateView {
    /// Each pending confirmation names a listed backup.
    pub open spec fn wf(self) -> bool {
        &&& (self.pending_restore matches Some(n) ==> has_bundle(self.backups, n))
        &&& (self.pending_delete matches Some(n) ==> has_bundle(self.backups, n))
    }

    /// The state once both roots were scanned again.
    pub open spec fn refreshed(self, game: Seq<BundleView>, backups: Seq<BundleView>) -> StateView {
        StateView {
            game,
            backups,
            pending_restore: keep_if_listed(self.pending_restore, backups),
            pending_delete: keep_if_listed(self.pending_delete, backups),
            ..self
        }
    }
}

pub proof fn lemma_first_named(bundles: Seq<BundleView>, name: Seq<char>)
    ensures
        first_named(bundles, name) matches Some(i) ==> 0 <= i < bundles.len() && bundles[i].name
            == name,
        first_named(bundles, name) is None <==> !has_bundle(bundles, name),
    decreases bundles.len(),
{
    if bundles.len() > 0 {
        let init = bundles.drop_last();
        lemma_first_named(init, name);
        if has_bundle(bundles, name) && first_named(init, name) is None {
            let i = choose|i: int| 0 <= i < bundles.len() && (#[trigger] bundles[i]).name == name;
            if i < bundles.len() - 1 {
                assert(init[i] == bundles[i]);
            }
        }
        if has_bundle(init, name) {
            let i = choose|i: int| 0 <= i < init.len() && (#[trigger] init[i]).name == name;
            assert(bundles[i] == init[i]);
        }
    }
}

/// The index of the first bundle named `name`, as `first_named` states it.
pub fn find_bundle(bundles: &Vec<SaveBundle>, name: &String) -> (r: Option<usize>)
    ensures
        r matches Some(i) ==> first_named(bundles_view(bundles@), name@) == Some(i as int),
        r is None <==> first_named(bundles_view(bundles@), name@) is None,
{
    let ghost bv = bundles_view(bundles@);
    let mut i: usize = 0;
    while i < bundles.len()
        invariant
            i <= bundles@.len(),
            bv == bundles_view(bundles@),
            first_named(bv.subrange(0, i as int), name@) is None,
        decreases bundles@.len() - i,
    {
        assert(bv.subrange(0, i + 1).drop_last() =~= bv.subrange(0, i as int));
        if bundles[i].name == *name {
            assert(bv.subrange(0, i + 1).last() == bv[i as int]);
            proof {
                lemma_first_named_prefix(bv, name@, i as int);
            }
            return Some(i);
        }
        i = i + 1;
    }
    assert(bv.subrange(0, i as int) =~= bv);
    None
}

proof fn lemma_first_named_prefix(bundles: Seq<BundleView>, name: Seq<char>, i: int)
    requires
        0 <= i < bundles.len(),
        bundles[i].name == name,
        first_named(bundles.subrange(0, i), name) is None,
    ensures
        first_named(bundles, name) == Some(i),
    decreases bundles.len(),
{
    if bundles.len() - 1 == i {
        assert(bundles.drop_last() =~= bundles.subrange(0, i));
    } else {
        let init = bundles.drop_last();
        assert(init.subrange(0, i) =~= bundles.subrange(0, i));
        lemma_first_named_prefix(init, name, i);
    }
}

fn listed(bundles: &Vec<SaveBundle>, name: &String) -> (r: bool)
    ensures
        r == has_bundle(bundles_view(bundles@), name@),
{
    proof {
        lemma_first_named(bundles_view(bundles@), name@);
    }
    find_bundle(bundles, name).is_some()
}

fn keep_listed(pending: Option<String>, backups: &Vec<SaveBundle>) -> (r: Option<String>)
    ensures
        name_view(r) == keep_if_listed(name_view(pending), bundles_view(backups@)),
{
    match pending {
        Some(n) => if listed(backups, &n) {
            Some(n)
        } else {
            None
        },
        None => None,
    }
}

impl AppState {
    /// A state for the two directories, with nothing listed or pending yet.
    pub fn new(save_directory: String, backup_directory: String) -> (r: AppState)
        ensures
            r@ == (StateView {
                save_directory: save_directory@,
                backup_directory: backup_directory@,
                game: Seq::empty(),
                backups: Seq::empty(),
                pending_restore: None,
                pending_delete: None,
            }),
    {
        let r = AppState {
            save_directory,
            backup_directory,
            game_save_bundles: Vec::new(),
            backup_save_bundles: Vec::new(),
            confirm_restore_backup_name: None,
            confirm_backup_deletion_name: None,
        };
        assert(r@.game =~= Seq::empty());
        assert(r@.backups =~= Seq::empty());
        r
    }

    /// Takes the listings of a new scan of both roots. A pending name whose
    /// backup is no longer listed is cleared.
    pub fn refresh_save_bundles(&mut self, game: Vec<SaveBundle>, backups: Vec<SaveBundle>)
        ensures
            final(self)@ == old(self)@.refreshed(bundles_view(game@), bundles_view(backups@)),
    {
        let restore = keep_listed(self.confirm_restore_backup_name.take(), &backups);
        let delete = keep_listed(self.confirm_backup_deletion_name.take(), &backups);
        self.confirm_restore_backup_name = restore;
        self.confirm_backup_deletion_name = delete;
        self.game_save_bundles = game;
        self.backup_save_bundles = backups;
    }

    /// Points the active saves at another directory; its listing follows
    /// with the next scan.
    pub fn update_save_directory(&mut self, new_directory: String)
        ensures
            final(self)@ == (StateView { save_directory: new_directory@, ..old(self)@ }),
    {
        self.save_directory = new_directory;
    }

    /// Points the backups at another directory; its listing follows with
    /// the next scan.
    pub fn update_backup_directory(&mut self, new_directory: String)
        ensures
            final(self)@ == (StateView { backup_directory: new_directory@, ..old(self)@ }),
    {
        self.backup_directory = new_directory;
    }

    pub fn confirm_restore_backup(&mut self, backup_name: String)
        ensures
            final(self)@ == (StateView { pending_restore: Some(backup_name@), ..old(self)@ }),
    {
        self.confirm_restore_backup_name = Some(backup_name);
    }

    pub fn confirm_delete_backup(&mut self, backup_name: String)
        ensures
            final(self)@ == (StateView { pending_delete: Some(backup_name@), ..old(self)@ }),
    {
        self.confirm_backup_deletion_name = Some(backup_name);
    }

    pub fn clear_restore_confirmation(&mut self)
        ensures
            final(self)@ == (StateView { pending_restore: None, ..old(self)@ }),
    {
        self.confirm_restore_backup_name = None;
    }

    pub fn clear_delete_confirmation(&mut self)
        ensures
            final(self)@ == (StateView { pending_delete: None, ..old(self)@ }),
    {
        self.confirm_backup_deletion_name = None;
    }
}

} // verus!
