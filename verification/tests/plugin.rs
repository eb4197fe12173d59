use std::collections::HashMap;

use telescope::action::{Action, CustomAction};
use telescope::bindings::{copy_keys, find_binding, insert_binding, same_keys, Binding};
use telescope::key_event::{KeyCode, KeyEvent, KeyModifiers};
use telescope::mode::Mode;
use telescope::plugin_action::PluginAction;
use telescope::telescope_commands::{
    Command, TelescopeConfirmResult, TelescopeDropSearchChar, TelescopeNextResult,
    TelescopePreviousResult, TelescopeQuit,
};
use telescope::{get_default_bindings, get_functionalities, Telescope};

fn plain(code: KeyCode) -> KeyEvent {
    KeyEvent::new(code, KeyModifiers::none())
}

fn ctrl(ch: char) -> KeyEvent {
    KeyEvent::new(KeyCode::Char(ch), KeyModifiers::control())
}

fn letters(text: &str) -> Vec<KeyEvent> {
    text.chars().map(|ch| plain(KeyCode::Char(ch))).collect()
}

fn as_map(entries: Vec<Binding<String>>) -> HashMap<(Mode, Vec<KeyEvent>), String> {
    let mut map = HashMap::new();
    for entry in entries {
        map.insert((entry.mode, entry.keys), entry.value);
    }
    map
}

#[test]
fn test_new_telescope() {
    let custom_bindings = vec![Binding {
        mode: Mode::PopUp,
        keys: letters("abcd"),
        value: "TelescopeQuit".to_string(),
    }];
    let telescope = Telescope::new(custom_bindings.clone());
    let mut obtained_bindings = as_map(telescope.get_plugin_bindings());
    obtained_bindings.extend(as_map(telescope.get_popup_bindings()));
    let mut expected_bindings = as_map(get_default_bindings());
    expected_bindings.extend(as_map(custom_bindings));
    assert_eq!(obtained_bindings, expected_bindings);
}

#[test]
fn default_bindings_are_the_six_documented_ones() {
    let bindings = as_map(get_default_bindings());
    let mut expected = HashMap::new();
    expected.insert((Mode::Normal, letters(" sg")), "OpenSFS".to_string());
    expected.insert((Mode::PopUp, vec![plain(KeyCode::Esc)]), "TelescopeQuit".to_string());
    expected.insert((Mode::PopUp, vec![ctrl('n')]), "TelescopeNextResult".to_string());
    expected.insert((Mode::PopUp, vec![ctrl('p')]), "TelescopePreviousResult".to_string());
    expected.insert(
        (Mode::PopUp, vec![plain(KeyCode::Backspace)]),
        "TelescopeDropSearchChar".to_string(),
    );
    expected.insert(
        (Mode::PopUp, vec![plain(KeyCode::Enter)]),
        "TelescopeConfirmResult".to_string(),
    );
    assert_eq!(bindings, expected);
}

#[test]
fn bindings_are_split_by_mode() {
    let custom = vec![
        Binding { mode: Mode::Normal, keys: letters("zz"), value: "OpenSFS".to_string() },
        Binding { mode: Mode::Visual, keys: letters("v"), value: "OpenSFS".to_string() },
        Binding { mode: Mode::PopUp, keys: letters("q"), value: "TelescopeQuit".to_string() },
    ];
    let telescope = Telescope::new(custom);
    let plugin = as_map(telescope.get_plugin_bindings());
    let popup = as_map(telescope.get_popup_bindings());
    assert!(plugin.keys().all(|(mode, _)| *mode != Mode::PopUp));
    assert!(popup.keys().all(|(mode, _)| *mode == Mode::PopUp));
    assert_eq!(plugin.len(), 3);
    assert_eq!(popup.len(), 6);
    assert_eq!(plugin[&(Mode::Visual, letters("v"))], "OpenSFS");
    assert_eq!(popup[&(Mode::PopUp, letters("q"))], "TelescopeQuit");
}

#[test]
fn custom_binding_overrides_the_default_for_the_same_keys() {
    let custom = vec![Binding {
        mode: Mode::PopUp,
        keys: vec![plain(KeyCode::Esc)],
        value: "TelescopeConfirmResult".to_string(),
    }];
    let telescope = Telescope::new(custom);
    let popup = as_map(telescope.get_popup_bindings());
    assert_eq!(popup.len(), 5);
    assert_eq!(
        popup[&(Mode::PopUp, vec![plain(KeyCode::Esc)])],
        "TelescopeConfirmResult"
    );
}

#[test]
fn plugin_without_custom_bindings_has_the_defaults() {
    let telescope = Telescope::new(Vec::new());
    let mut all = as_map(telescope.get_plugin_bindings());
    all.extend(as_map(telescope.get_popup_bindings()));
    assert_eq!(all, as_map(get_default_bindings()));
    assert_eq!(telescope.display_details(), "Telescope");
}

#[test]
fn functionalities_are_offered_by_name() {
    let offered: HashMap<String, Action> = get_functionalities().into_iter().collect();
    let act = |command: Command| Action::PluginAct(PluginAction::new(command));
    assert_eq!(offered.len(), 6);
    assert_eq!(offered["OpenSFS"], Action::CustomAct(CustomAction::OpenSfs));
    assert_eq!(offered["TelescopeQuit"], act(Command::Quit(TelescopeQuit::new())));
    assert_eq!(
        offered["TelescopeNextResult"],
        act(Command::NextResult(TelescopeNextResult::new()))
    );
    assert_eq!(
        offered["TelescopePreviousResult"],
        act(Command::PreviousResult(TelescopePreviousResult::new()))
    );
    assert_eq!(
        offered["TelescopeDropSearchChar"],
        act(Command::DropSearchChar(TelescopeDropSearchChar::new()))
    );
    assert_eq!(
        offered["TelescopeConfirmResult"],
        act(Command::ConfirmResult(TelescopeConfirmResult::new()))
    );
    let telescope = Telescope::new(Vec::new());
    assert_eq!(telescope.get_functionality_map(), get_functionalities());
}

#[test]
fn every_default_binding_names_an_offered_functionality() {
    let offered: HashMap<String, Action> = get_functionalities().into_iter().collect();
    for binding in get_default_bindings() {
        assert!(offered.contains_key(&binding.value));
    }
}

#[test]
fn key_sequences_are_copied_and_compared_key_by_key() {
    let keys = letters("abc");
    assert_eq!(copy_keys(&keys), keys);
    assert!(same_keys(&keys, &letters("abc")));
    assert!(!same_keys(&keys, &letters("abd")));
    assert!(!same_keys(&keys, &letters("ab")));
    assert!(same_keys(&Vec::new(), &Vec::new()));
    assert!(!same_keys(&vec![ctrl('a')], &letters("a")));
}

#[test]
fn insert_binding_adds_a_new_entry_and_replaces_the_value_of_an_old_one() {
    let mut table: Vec<Binding<u8>> = Vec::new();
    insert_binding(&mut table, Mode::Normal, letters("a"), 1);
    insert_binding(&mut table, Mode::PopUp, letters("a"), 2);
    insert_binding(&mut table, Mode::Normal, letters("ab"), 3);
    assert_eq!(table.len(), 3);
    insert_binding(&mut table, Mode::Normal, letters("a"), 4);
    assert_eq!(table.len(), 3);
    assert_eq!(
        table,
        vec![
            Binding { mode: Mode::Normal, keys: letters("a"), value: 4 },
            Binding { mode: Mode::PopUp, keys: letters("a"), value: 2 },
            Binding { mode: Mode::Normal, keys: letters("ab"), value: 3 },
        ]
    );
}

#[test]
fn find_binding_names_the_last_entry_for_mode_and_keys() {
    let table = vec![
        Binding { mode: Mode::Normal, keys: letters("a"), value: 1 },
        Binding { mode: Mode::PopUp, keys: letters("a"), value: 2 },
        Binding { mode: Mode::Normal, keys: letters("a"), value: 3 },
    ];
    assert_eq!(find_binding(&table, Mode::Normal, &letters("a")), Some(2));
    assert_eq!(find_binding(&table, Mode::PopUp, &letters("a")), Some(1));
    assert_eq!(find_binding(&table, Mode::Visual, &letters("a")), None);
    assert_eq!(find_binding(&table, Mode::Normal, &letters("b")), None);
    assert_eq!(find_binding(&Vec::<Binding<u8>>::new(), Mode::Normal, &letters("a")), None);
}

#[test]
fn insert_binding_replaces_the_entry_that_counts_where_keys_occur_twice() {
    let mut table = vec![
        Binding { mode: Mode::Normal, keys: letters("a"), value: 1 },
        Binding { mode: Mode::Normal, keys: letters("a"), value: 2 },
    ];
    insert_binding(&mut table, Mode::Normal, letters("a"), 9);
    assert_eq!(table.len(), 2);
    assert_eq!(table[1].value, 9);
    assert_eq!(table[0].value, 1);
}

#[test]
fn tables_of_the_plugin_hold_no_keys_twice() {
    let custom = vec![
        Binding { mode: Mode::PopUp, keys: vec![plain(KeyCode::Esc)], value: "TelescopeConfirmResult".to_string() },
        Binding { mode: Mode::PopUp, keys: vec![plain(KeyCode::Esc)], value: "TelescopeNextResult".to_string() },
        Binding { mode: Mode::Normal, keys: letters(" sg"), value: "OpenSFS".to_string() },
        Binding { mode: Mode::Normal, keys: letters("zz"), value: "OpenSFS".to_string() },
    ];
    let telescope = Telescope::new(custom);
    let popup = telescope.get_popup_bindings();
    let plugin = telescope.get_plugin_bindings();
    assert_eq!(popup.len(), 5);
    assert_eq!(plugin.len(), 2);
    assert_eq!(as_map(popup.clone()).len(), popup.len());
    assert_eq!(as_map(plugin.clone()).len(), plugin.len());
    assert_eq!(
        as_map(popup)[&(Mode::PopUp, vec![plain(KeyCode::Esc)])],
        "TelescopeNextResult"
    );
    assert_eq!(get_default_bindings().len(), 6);
}

#[test]
fn clone_of_the_plugin_has_the_same_tables() {
    let telescope = Telescope::new(vec![Binding {
        mode: Mode::Search,
        keys: letters("t"),
        value: "OpenSFS".to_string(),
    }]);
    let copy = telescope.clone();
    assert_eq!(copy.get_plugin_bindings(), telescope.get_plugin_bindings());
    assert_eq!(copy.get_popup_bindings(), telescope.get_popup_bindings());
    assert_eq!(copy.get_functionality_map(), telescope.get_functionality_map());
    assert_eq!(copy.get_plugin_bindings().len(), 2);
}

#[test]
fn tables_take_keys_in_their_normal_form() {
    let shift = KeyModifiers { shift: true, ..KeyModifiers::none() };
    let upper = vec![plain(KeyCode::Char('G'))];
    let shifted = vec![KeyEvent::new(KeyCode::Char('g'), shift)];
    let lower = vec![plain(KeyCode::Char('g'))];
    assert!(same_keys(&upper, &shifted));
    assert!(!same_keys(&upper, &lower));
    assert!(!same_keys(&shifted, &lower));
    let mut table: Vec<Binding<u8>> = Vec::new();
    insert_binding(&mut table, Mode::Normal, upper.clone(), 1);
    insert_binding(&mut table, Mode::Normal, lower.clone(), 2);
    insert_binding(&mut table, Mode::Normal, shifted.clone(), 3);
    assert_eq!(table.len(), 2);
    assert_eq!(find_binding(&table, Mode::Normal, &upper), Some(0));
    assert_eq!(find_binding(&table, Mode::Normal, &shifted), Some(0));
    assert_eq!(find_binding(&table, Mode::Normal, &lower), Some(1));
    assert_eq!(table[0].value, 3);

    let custom = vec![Binding {
        mode: Mode::Normal,
        keys: vec![
            plain(KeyCode::Char(' ')),
            plain(KeyCode::Char('s')),
            KeyEvent::new(KeyCode::Char('g'), KeyModifiers::none()),
        ],
        value: "TelescopeQuit".to_string(),
    }];
    let telescope = Telescope::new(custom);
    let plugin = telescope.get_plugin_bindings();
    assert_eq!(plugin.len(), 1);
    assert_eq!(plugin[0].value, "TelescopeQuit");
}
