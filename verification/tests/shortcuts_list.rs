use fs_desktop::shortcuts::resolve_shortcut;
use fs_desktop::header::KeyText;
use fs_desktop::shortcuts::{action_categories, filter_actions, register_actions, ShortcutsConfig, ShortcutsState};

#[test]
fn search_filters_by_label_and_category() {
    let actions = register_actions(&KeyText);
    assert_eq!(filter_actions(&actions, "").len(), actions.len());
    let tools = filter_actions(&actions, "TOOLS");
    assert_eq!(tools.len(), 6);
    assert!(tools.iter().all(|&k| actions[k].category == "Tools"));
    let quit = filter_actions(&actions, "action-quit");
    assert_eq!(quit, vec![2]);
    assert!(filter_actions(&actions, "no-such-thing").is_empty());
}

#[test]
fn categories_sorted_and_unique() {
    let actions = register_actions(&KeyText);
    let all = filter_actions(&actions, "");
    assert_eq!(action_categories(&actions, &all), vec!["App", "Help", "Tools", "View", "Window"]);
    let some = filter_actions(&actions, "help");
    assert_eq!(action_categories(&actions, &some), vec!["Help"]);
}

#[test]
fn rows_show_recording_and_defaults() {
    let actions = register_actions(&KeyText);
    let mut state = ShortcutsState::new(ShortcutsConfig { custom: vec![("app.quit".into(), "Ctrl+W".into())] });
    let quit = state.row(&actions[2], &KeyText);
    assert_eq!(quit.shortcut, "Ctrl+W");
    assert!(!quit.is_default);
    let settings = state.row(&actions[0], &KeyText);
    assert_eq!(settings.shortcut, "Ctrl+,");
    assert!(settings.is_default);
    state.recording = Some("app.settings".into());
    let rec = state.row(&actions[0], &KeyText);
    assert!(rec.recording);
    assert_eq!(rec.shortcut, "settings-shortcuts-press-keys");
    assert_eq!(state.row(&actions[4], &KeyText).shortcut, "—");
}

#[test]
fn each_override_is_found_by_its_action() {
    let actions = register_actions(&KeyText);
    let config = ShortcutsConfig {
        custom: vec![
            ("app.quit".into(), "Ctrl+W".into()),
            ("app.settings".into(), "Ctrl+P".into()),
        ],
    };
    assert_eq!(resolve_shortcut(&actions[2], &config), Some("Ctrl+W"));
    assert_eq!(resolve_shortcut(&actions[0], &config), Some("Ctrl+P"));
}
