use rsm::location::{base_name_of, join};
use rsm::order::{sorted_names, text_less};
use rsm::save::{Dictionary, DictionaryValue, PlayerNames, SaveGame, StringValue};
use rsm::save_bundle::{
    extract_save_bundles, save_file_for, EntryScan, SaveBundle, SaveBundleError, SaveFileRead,
};

fn pairs(items: &[(&str, i32)]) -> Vec<(String, i32)> {
    items.iter().map(|(k, v)| (k.to_string(), *v)).collect()
}

fn record(stats: &[(&str, i32)], players: &[(&str, &str)]) -> SaveGame {
    SaveGame {
        dictionary_of_dictionaries: Dictionary {
            _type: "dict".to_string(),
            value: DictionaryValue {
                run_stats: pairs(stats),
                items_purchased: Vec::new(),
                items_purchased_total: Vec::new(),
                items_upgrades_purchased: Vec::new(),
                item_battery_upgrades: Vec::new(),
                player_health: Vec::new(),
                player_upgrade_health: Vec::new(),
                player_upgrade_stamina: Vec::new(),
                player_upgrade_extra_jump: Vec::new(),
                player_upgrade_launch: Vec::new(),
                player_upgrade_map_player_count: Vec::new(),
                player_upgrade_speed: Vec::new(),
                player_upgrade_strength: Vec::new(),
                player_upgrade_range: Vec::new(),
                player_upgrade_throw: Vec::new(),
                player_has_crown: Vec::new(),
                item: Vec::new(),
                item_stat_battery: Vec::new(),
            },
        },
        player_names: PlayerNames {
            _type: "names".to_string(),
            value: players.iter().map(|(k, v)| (k.to_string(), v.to_string())).collect(),
        },
        date_and_time: StringValue { _type: "string".to_string(), value: "2025-04-12".to_string() },
        team_name: StringValue { _type: "string".to_string(), value: "team".to_string() },
    }
}

fn decoded(stats: &[(&str, i32)], players: &[(&str, &str)]) -> SaveFileRead {
    SaveFileRead::Decoded(record(stats, players))
}

#[test]
fn load_reads_level_and_sorted_players() {
    let read = decoded(&[("level", 3)], &[("p2", "Bob"), ("p1", "Alice")]);
    let bundle = SaveBundle::new(&"/saves/SAVE_A".to_string(), &read).ok().unwrap();
    assert_eq!(bundle.name, "SAVE_A");
    assert_eq!(bundle.location, "/saves/SAVE_A");
    assert_eq!(bundle.level, 3);
    assert_eq!(bundle.display_level(), 4);
    assert_eq!(bundle.players, vec!["Alice".to_string(), "Bob".to_string()]);
}

#[test]
fn load_name_is_directory_base_name() {
    let read = decoded(&[("level", 0)], &[]);
    let bundle = SaveBundle::new(&"C:\\games\\saves\\REPO_SAVE_1\\".to_string(), &read)
        .ok()
        .unwrap();
    assert_eq!(bundle.name, "REPO_SAVE_1");
}

#[test]
fn load_without_level_defaults_to_zero() {
    let read = decoded(&[("moneys", 12)], &[("z", "Zed")]);
    let bundle = SaveBundle::new(&"/saves/S".to_string(), &read).ok().unwrap();
    assert_eq!(bundle.level, 0);
    assert_eq!(bundle.display_level(), 1);
    assert_eq!(bundle.players, vec!["Zed".to_string()]);
}

#[test]
fn load_largest_level_displays_without_overflow() {
    let read = decoded(&[("level", i32::MAX)], &[]);
    let bundle = SaveBundle::new(&"/saves/S".to_string(), &read).ok().unwrap();
    assert_eq!(bundle.display_level(), i32::MAX as i64 + 1);
}

#[test]
fn load_errors() {
    let loc = "/saves/S".to_string();
    assert!(matches!(
        SaveBundle::new(&loc, &SaveFileRead::Missing),
        Err(SaveBundleError::MissingFile)
    ));
    assert!(matches!(
        SaveBundle::new(&loc, &SaveFileRead::NotAFile),
        Err(SaveBundleError::ExpectedFile)
    ));
    match SaveBundle::new(&loc, &SaveFileRead::Undecryptable("bad pad".to_string())) {
        Err(SaveBundleError::DecryptError(m)) => assert_eq!(m, "bad pad"),
        _ => panic!("expected a decrypt error"),
    }
    match SaveBundle::new(&loc, &SaveFileRead::Undecodable("no field".to_string())) {
        Err(SaveBundleError::JSONError(m)) => assert_eq!(m, "no field"),
        _ => panic!("expected a schema error"),
    }
    let read = decoded(&[("level", 1)], &[]);
    assert!(matches!(SaveBundle::new(&"/".to_string(), &read), Err(SaveBundleError::NoFileName)));
    assert!(matches!(SaveBundle::new(&"".to_string(), &read), Err(SaveBundleError::NoFileName)));
    assert!(matches!(
        SaveBundle::new(&"/saves/..".to_string(), &read),
        Err(SaveBundleError::NoFileName)
    ));
}

#[test]
fn refresh_updates_level_and_players_only() {
    let mut bundle = SaveBundle::new(
        &"/saves/S".to_string(),
        &decoded(&[("level", 1)], &[("b", "Bob")]),
    )
    .ok()
    .unwrap();
    let read = decoded(&[("level", 5)], &[("c", "Carol"), ("a", "Alice"), ("b", "Bob")]);
    assert!(bundle.refresh_data(&read).is_ok());
    assert_eq!(bundle.level, 5);
    assert_eq!(bundle.players, vec!["Alice".to_string(), "Bob".to_string(), "Carol".to_string()]);
    assert_eq!(bundle.name, "S");
    assert_eq!(bundle.location, "/saves/S");

    assert!(matches!(bundle.refresh_data(&SaveFileRead::Missing), Err(SaveBundleError::MissingFile)));
    assert_eq!(bundle.level, 5);
    assert_eq!(bundle.players.len(), 3);
}

#[test]
fn get_data_returns_the_record() {
    let bundle = SaveBundle::new(&"/saves/S".to_string(), &decoded(&[("level", 2)], &[]))
        .ok()
        .unwrap();
    let read = decoded(&[("level", 9)], &[]);
    let data = bundle.get_data(&read).ok().unwrap();
    assert_eq!(data.dictionary_of_dictionaries.value.run_stats[0].1, 9);
    assert!(matches!(bundle.get_data(&SaveFileRead::NotAFile), Err(SaveBundleError::ExpectedFile)));
}

#[test]
fn save_file_paths() {
    let bundle = SaveBundle::new(&"/saves/SAVE_A".to_string(), &decoded(&[], &[]))
        .ok()
        .unwrap();
    assert_eq!(bundle.save_file_path(), "/saves/SAVE_A/SAVE_A.es3");
    assert_eq!(save_file_for("/saves/SAVE_A/").unwrap(), "/saves/SAVE_A/SAVE_A.es3");
    assert!(save_file_for("/").is_none());
}

#[test]
fn extract_keeps_only_loadable_bundles_in_order() {
    let entries = vec![
        EntryScan::Unreadable,
        EntryScan::NotADirectory,
        EntryScan::Directory("/r/A".to_string(), decoded(&[("level", 1)], &[])),
        EntryScan::Directory("/r/empty".to_string(), SaveFileRead::Missing),
        EntryScan::Directory("/r/dir".to_string(), SaveFileRead::NotAFile),
        EntryScan::Directory("/r/corrupt".to_string(), SaveFileRead::Undecryptable("x".to_string())),
        EntryScan::Directory("/r/B".to_string(), decoded(&[("level", 2)], &[])),
    ];
    let bundles = extract_save_bundles(&entries);
    assert_eq!(bundles.len(), 2);
    assert_eq!(bundles[0].name, "A");
    assert_eq!(bundles[0].level, 1);
    assert_eq!(bundles[1].name, "B");
    assert_eq!(bundles[1].level, 2);
}

#[test]
fn extract_of_nothing_is_empty() {
    assert!(extract_save_bundles(&Vec::new()).is_empty());
}

#[test]
fn base_names() {
    assert_eq!(base_name_of("a/b/c").unwrap(), "c");
    assert_eq!(base_name_of("a\\b").unwrap(), "b");
    assert_eq!(base_name_of("a/b//").unwrap(), "b");
    assert_eq!(base_name_of("solo").unwrap(), "solo");
    assert_eq!(base_name_of("/x/.hidden").unwrap(), ".hidden");
    assert!(base_name_of("").is_none());
    assert!(base_name_of("//").is_none());
    assert!(base_name_of("a/.").is_none());
}

#[test]
fn joins() {
    assert_eq!(join("/a", "b"), "/a/b");
    assert_eq!(join("/a/", "b"), "/a/b");
    assert_eq!(join("", "b"), "b");
}

#[test]
fn names_sort_by_character_code() {
    let names = vec!["bob".to_string(), "Alice".to_string(), "alice".to_string(), "Bob".to_string()];
    let sorted = sorted_names(&names);
    assert_eq!(sorted, vec!["Alice", "Bob", "alice", "bob"]);
    assert!(text_less(&"ab".to_string(), &"abc".to_string()));
    assert!(!text_less(&"abc".to_string(), &"abc".to_string()));
    assert!(text_less(&"Z".to_string(), &"a".to_string()));
}
