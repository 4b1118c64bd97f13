//! Save bundles: a directory `X` that holds the save file `X.es3`.
//!
//! Reading the disk is left to the caller, who reports what it found as a
//! `SaveFileRead` (for one bundle) or an `EntryScan` (for one entry of a root
//! directory). This module decides what that report yields.

use vstd::prelude::*;
use crate::location::{base_name, base_name_of, join, joined};
use crate::order::{is_sorted, sorted_names};
use crate::save::{level_of, player_names_of, record_level, SaveGame};

verus! {

/// One save directory, as decoded when it was read.
#[derive(Clone, Debug, PartialEq)]
pub struct SaveBundle {
    /// Directory location on disk.
    pub location: String,
    /// Directory name, also the stem of the save file.
    pub name: String,
    /// Run level, counted from zero.
    pub level: i32,
    /// Display names of the players, sorted.
    pub players: Vec<String>,
}

pub struct BundleView {
    pub location: Seq<char>,
    pub name: Seq<char>,
    pub level: i32,
    pub players: Seq<Seq<char>>,
}

impl View for SaveBundle {
    type V = BundleView;

    open spec fn view(&self) -> BundleView {
        BundleView {
            location: self.location@,
            name: self.name@,
            level: self.level,
            players: self.players@.map_values(|s: String| s@),
        }
    }
}

#[derive(Clone, Debug)]
pub enum SaveBundleError {
    /// The save file could not be decrypted.
    DecryptError(String),
    /// The decrypted content does not have the save file's schema.
    JSONError(String),
    /// The location has no directory name.
    NoFileName,
    /// The directory name is not text.
    InvalidFileName,
    /// The save file is absent.
    MissingFile,
    /// The save file's path is not a file.
    ExpectedFile,
}

/// What reading a bundle's save file gave.
#[derive(Clone, Debug)]
pub enum SaveFileRead {
    Missing,
    NotAFile,
    Undecryptable(String),
    Undecodable(String),
    Decoded(SaveGame),
}

/// What enumerating one entry of a root directory gave.
#[derive(Clone, Debug)]
pub enum EntryScan {
    /// The entry or its type could not be read.
    Unreadable,
    NotADirectory,
    /// A directory, with what reading its save file gave.
    Directory(String, SaveFileRead),
}

/// The record a read yields, or the error it stands for.
pub open spec fn read_outcome(read: SaveFileRead) -> Result<SaveGame, SaveBundleError> {
    match read {
        SaveFileRead::Missing => Err(SaveBundleError::MissingFile),
        SaveFileRead::NotAFile => Err(SaveBundleError::ExpectedFile),
        SaveFileRead::Undecryptable(m) => Err(SaveBundleError::DecryptError(m)),
        SaveFileRead::Undecodable(m) => Err(SaveBundleError::JSONError(m)),
        SaveFileRead::Decoded(g) => Ok(g),
    }
}

/// The save file of the bundle at `location` named `name`.
pub open spec fn save_file_of(location: Seq<char>, name: Seq<char>) -> Seq<char> {
    joined(location, name + ".es3"@)
}

/// `b` is the bundle at `location`, named `name`, decoded from `game`.
pub open spec fn describes(b: BundleView, location: Seq<char>, name: Seq<char>, game: SaveGame) -> bool {
    &&& b.location == location
    &&& b.name == name
    &&& b.level == level_of(game)
    &&& is_sorted(b.players)
    &&& b.players.to_multiset() == player_names_of(game).to_multiset()
}

/// `r` is what loading the bundle at `location` yields, given `read`.
pub open spec fn loads(location: Seq<char>, read: SaveFileRead, r: Result<SaveBundle, SaveBundleError>) -> bool {
    match base_name(location) {
        None => r == Err::<SaveBundle, SaveBundleError>(SaveBundleError::NoFileName),
        Some(name) => match read_outcome(read) {
            Err(e) => r == Err::<SaveBundle, SaveBundleError>(e),
            Ok(g) => r matches Ok(b) && describes(b@, location, name, g),
        },
    }
}

pub open spec fn loadable(e: EntryScan) -> bool {
    e matches EntryScan::Directory(loc, read) && base_name(loc@) is Some && read_outcome(read) is Ok
}

/// The entries that hold a bundle that loads, in their order.
pub open spec fn loadable_entries(es: Seq<EntryScan>) -> Seq<EntryScan>
    decreases es.len(),
{
    if es.len() == 0 {
        Seq::empty()
    } else if loadable(es.last()) {
        loadable_entries(es.drop_last()).push(es.last())
    } else {
        loadable_entries(es.drop_last())
    }
}

/// `b` is the bundle that the loadable entry `e` holds.
pub open spec fn loaded_from(b: BundleView, e: EntryScan) -> bool {
    match e {
        EntryScan::Directory(loc, read) => match (base_name(loc@), read_outcome(read)) {
            (Some(name), Ok(g)) => describes(b, loc@, name, g),
            _ => false,
        },
        _ => false,
    }
}

/// Interprets what reading a save file gave.
pub fn read_save_file(read: &SaveFileRead) -> (r: Result<&SaveGame, SaveBundleError>)
    ensures
        match read_outcome(*read) {
            Ok(g) => r == Ok::<&SaveGame, SaveBundleError>(&g),
            Err(e) => r == Err::<&SaveGame, SaveBundleError>(e),
        },
{
    match read {
        SaveFileRead::Missing => Err(SaveBundleError::MissingFile),
        SaveFileRead::NotAFile => Err(SaveBundleError::ExpectedFile),
        SaveFileRead::Undecryptable(m) => Err(SaveBundleError::DecryptError(m.clone())),
        SaveFileRead::Undecodable(m) => Err(SaveBundleError::JSONError(m.clone())),
        SaveFileRead::Decoded(g) => Ok(g),
    }
}

/// The display names of a record's players, in the record's order.
fn record_players(game: &SaveGame) -> (r: Vec<String>)
    ensures
        r@.map_values(|s: String| s@) == player_names_of(*game),
{
    let names = &game.player_names.value;
    let mut out: Vec<String> = Vec::new();
    let mut i: usize = 0;
    while i < names.len()
        invariant
            i <= names@.len(),
            names@ == game.player_names.value@,
            out@.map_values(|s: String| s@) =~= names@.subrange(0, i as int).map_values(
                |p: (String, String)| p.1@,
            ),
        decreases names@.len() - i,
    {
        out.push(names[i].1.clone());
        assert(names@.subrange(0, i + 1).map_values(|p: (String, String)| p.1@) =~= names@.subrange(
            0,
            i as int,
        ).map_values(|p: (String, String)| p.1@).push(names@[i as int].1@));
        i = i + 1;
    }
    assert(names@.subrange(0, names@.len() as int) =~= names@);
    out
}

/// The save file of the bundle at `location`; none where the location has
/// no directory name.
pub fn save_file_for(location: &str) -> (r: Option<String>)
    ensures
        match base_name(location@) {
            None => r is None,
            Some(name) => r matches Some(f) && f@ == save_file_of(location@, name),
        },
{
    match base_name_of(location) {
        None => None,
        Some(name) => {
            let file = name.concat(".es3");
            Some(join(location, file.as_str()))
        },
    }
}

impl SaveBundle {
    /// The bundle at `location`, named `name`, decoded from `game`.
    fn from_record(location: String, name: String, game: &SaveGame) -> (r: SaveBundle)
        ensures
            describes(r@, location@, name@, *game),
    {
        let players = sorted_names(&record_players(game));
        SaveBundle { location, name, level: record_level(game), players }
    }

    /// Loads the bundle at `location`, given what reading its save file gave.
    pub fn new(location: &String, read: &SaveFileRead) -> (r: Result<SaveBundle, SaveBundleError>)
        ensures
            loads(location@, *read, r),
    {
        let name = match base_name_of(location.as_str()) {
            None => return Err(SaveBundleError::NoFileName),
            Some(n) => n,
        };
        match read_save_file(read) {
            Err(e) => Err(e),
            Ok(game) => Ok(SaveBundle::from_record(location.clone(), name, game)),
        }
    }

    /// The path of the bundle's own save file.
    pub fn save_file_path(&self) -> (r: String)
        ensures
            r@ == save_file_of(self.location@, self.name@),
    {
        let file = self.name.clone().concat(".es3");
        join(self.location.as_str(), file.as_str())
    }

    /// The level as shown to users, counted from one.
    pub fn display_level(&self) -> (r: i64)
        ensures
            r == self.level + 1,
    {
        self.level as i64 + 1
    }

    /// The record of the bundle's save file, given what reading it gave.
    pub fn get_data<'a>(&self, read: &'a SaveFileRead) -> (r: Result<&'a SaveGame, SaveBundleError>)
        ensures
            match read_outcome(*read) {
                Ok(g) => r == Ok::<&SaveGame, SaveBundleError>(&g),
                Err(e) => r == Err::<&SaveGame, SaveBundleError>(e),
            },
    {
        read_save_file(read)
    }

    /// Updates level and players from a new read of the bundle's save file;
    /// location and name stay. On an error the bundle is unchanged.
    pub fn refresh_data(&mut self, read: &SaveFileRead) -> (r: Result<(), SaveBundleError>)
        ensures
            match read_outcome(*read) {
                Err(e) => r == Err::<(), SaveBundleError>(e) && *final(self) == *old(self),
                Ok(g) => r is Ok && describes(final(self)@, old(self).location@, old(self).name@, g),
            },
    {
        match read_save_file(read) {
            Err(e) => Err(e),
            Ok(game) => {
                self.level = record_level(game);
                self.players = sorted_names(&record_players(game));
                Ok(())
            },
        }
    }
}

/// The bundles that the entries of a root directory hold, in entry order.
/// An entry that is not a directory, cannot be read or does not load is
/// skipped; the listing as a whole never fails.
pub fn extract_save_bundles(entries: &Vec<EntryScan>) -> (r: Vec<SaveBundle>)
    ensures
        r@.len() == loadable_entries(entries@).len(),
        forall|k: int|
            0 <= k < r@.len() ==> loaded_from(#[trigger] r@[k]@, loadable_entries(entries@)[k]),
{
    let mut out: Vec<SaveBundle> = Vec::new();
    let mut i: usize = 0;
    while i < entries.len()
        invariant
            i <= entries@.len(),
            out@.len() == loadable_entries(entries@.subrange(0, i as int)).len(),
            forall|k: int|
                0 <= k < out@.len() ==> loaded_from(
                    #[trigger] out@[k]@,
                    loadable_entries(entries@.subrange(0, i as int))[k],
                ),
        decreases entries@.len() - i,
    {
        let ghost prev = entries@.subrange(0, i as int);
        let ghost cur = entries@.subrange(0, i + 1);
        assert(cur.drop_last() =~= prev);
        assert(cur.last() == entries@[i as int]);
        match &entries[i] {
            EntryScan::Directory(location, read) => {
                match SaveBundle::new(location, read) {
                    Ok(b) => {
                        out.push(b);
                    },
                    Err(_) => {},
                }
            },
            _ => {},
        }
        i = i + 1;
    }
    assert(entries@.subrange(0, entries@.len() as int) =~= entries@);
    out
}

} // verus!
