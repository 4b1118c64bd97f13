//! The decoded payload of one save file.
//!
//! Each map of the file is held as a list of `(key, value)` pairs in the
//! order the decoder handed them over; keys are unique. The play time, a
//! floating-point value, is not held.

use vstd::prelude::*;

verus! {

/// A text field of the save file with its type tag.
#[derive(Clone, Debug)]
pub struct StringValue {
    pub _type: String,
    pub value: String,
}

/// The map from player id to display name, with its type tag.
#[derive(Clone, Debug)]
pub struct PlayerNames {
    pub _type: String,
    pub value: Vec<(String, String)>,
}

/// The counters of one run, keyed by counter or item name.
#[derive(Clone, Debug)]
pub struct DictionaryValue {
    pub run_stats: Vec<(String, i32)>,
    pub items_purchased: Vec<(String, i32)>,
    pub items_purchased_total: Vec<(String, i32)>,
    pub items_upgrades_purchased: Vec<(String, i32)>,
    pub item_battery_upgrades: Vec<(String, i32)>,
    pub player_health: Vec<(String, i32)>,
    pub player_upgrade_health: Vec<(String, i32)>,
    pub player_upgrade_stamina: Vec<(String, i32)>,
    pub player_upgrade_extra_jump: Vec<(String, i32)>,
    pub player_upgrade_launch: Vec<(String, i32)>,
    pub player_upgrade_map_player_count: Vec<(String, i32)>,
    pub player_upgrade_speed: Vec<(String, i32)>,
    pub player_upgrade_strength: Vec<(String, i32)>,
    pub player_upgrade_range: Vec<(String, i32)>,
    pub player_upgrade_throw: Vec<(String, i32)>,
    pub player_has_crown: Vec<(String, i32)>,
    pub item: Vec<(String, i32)>,
    pub item_stat_battery: Vec<(String, i32)>,
}

/// The dictionary of dictionaries, with its type tag.
#[derive(Clone, Debug)]
pub struct Dictionary {
    pub _type: String,
    pub value: DictionaryValue,
}

/// One decoded save file.
#[derive(Clone, Debug)]
pub struct SaveGame {
    pub dictionary_of_dictionaries: Dictionary,
    pub player_names: PlayerNames,
    pub date_and_time: StringValue,
    pub team_name: StringValue,
}

/// The value stored under `key`, if any.
pub open spec fn stat_of(stats: Seq<(String, i32)>, key: Seq<char>) -> Option<i32>
    decreases stats.len(),
{
    if stats.len() == 0 {
        None
    } else if stats[0].0@ == key {
        Some(stats[0].1)
    } else {
        stat_of(stats.drop_first(), key)
    }
}

/// The run level stored in a record; `0` where the record has none.
pub open spec fn level_of(game: SaveGame) -> i32 {
    match stat_of(game.dictionary_of_dictionaries.value.run_stats@, "level"@) {
        Some(l) => l,
        None => 0,
    }
}

/// The display names of a record's players, in the record's order.
pub open spec fn player_names_of(game: SaveGame) -> Seq<Seq<char>> {
    game.player_names.value@.map_values(|p: (String, String)| p.1@)
}

/// The run level of a record, as `level_of` states it.
pub fn record_level(game: &SaveGame) -> (r: i32)
    ensures
        r == level_of(*game),
{
    let stats = &game.dictionary_of_dictionaries.value.run_stats;
    let key_owned = String::from_str("level");
    let mut i: usize = 0;
    assert(stats@.skip(0) =~= stats@);
    while i < stats.len()
        invariant
            i <= stats@.len(),
            key_owned@ == "level"@,
            stats@ == game.dictionary_of_dictionaries.value.run_stats@,
            stat_of(stats@, "level"@) == stat_of(stats@.skip(i as int), "level"@),
        decreases stats@.len() - i,
    {
        assert(stats@.skip(i as int).drop_first() =~= stats@.skip(i + 1));
        if stats[i].0 == key_owned {
            return stats[i].1;
        }
        i = i + 1;
    }
    0
}

} // verus!
