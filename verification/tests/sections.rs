use fs_desktop::header::KeyText;
use fs_desktop::sections::{
    filter_topics, help_topics, settings_sidebar, HelpSection, ManagerSection, SettingsSection,
};

#[test]
fn settings_sections_round_trip() {
    for s in settings_sidebar(true) {
        assert_eq!(SettingsSection::from_id(s.id()), Some(s));
    }
    assert_eq!(settings_sidebar(false).len(), 7);
    assert_eq!(settings_sidebar(true).last(), Some(&SettingsSection::Packages));
    assert_eq!(SettingsSection::from_id("roles"), None);
    assert_eq!(SettingsSection::ServiceRoles.label(&KeyText), "settings.section.roles");
    assert_eq!(SettingsSection::Browser.icon(), "🌍");
}

#[test]
fn manager_and_help_sections() {
    for s in ManagerSection::all() {
        assert_eq!(ManagerSection::from_id(s.id()), Some(s));
    }
    assert_eq!(ManagerSection::ContainerApps.id(), "container_apps");
    assert_eq!(ManagerSection::Bots.label(&KeyText), "managers.section.bots");
    assert_eq!(HelpSection::from_id("shortcuts"), Some(HelpSection::Shortcuts));
    assert_eq!(HelpSection::Topics.icon(), "📚");
    let topics = help_topics();
    assert_eq!(topics.len(), 7);
    assert_eq!(topics[5].title, "AI Assistant");
}

use fs_desktop::builtin_apps::InstalledPackage;
use fs_desktop::sidebar::{
    by_kind, default_sidebar_sections, nav_item, pinnable_sidebar_sections, pinned_sidebar_items,
    toggle_pin, PinnablePackage,
};

fn pkg(id: &str, name: &str, kind: &str) -> InstalledPackage {
    InstalledPackage {
        id: id.into(),
        name: name.into(),
        kind: kind.into(),
        version: "1".into(),
        icon: "i".into(),
        file_path: None,
        installed_by: None,
    }
}

#[test]
fn sidebar_sections_from_registry() {
    let reg = vec![pkg("store", "Store", "app"), pkg("theme-manager", "Theme Manager", "manager"), pkg("wiki", "Wiki", "app")];
    let s = default_sidebar_sections(&reg, &KeyText);
    assert_eq!(s.len(), 2);
    assert_eq!(s[0].label, "Apps");
    let ids: Vec<&str> = s[0].items.iter().map(|i| i.id.as_str()).collect();
    assert_eq!(ids, vec!["store", "wiki"]);
    // Without a translation the package name is shown.
    assert_eq!(s[0].items[0].label, "Store");
    assert_eq!(s[1].items.len(), 5);
    assert_eq!(s[1].items[4].id, "managers-folder");
    assert_eq!(s[1].items[4].children[0].id, "theme-manager");
    assert_eq!(s[1].items[0].label, "shell.nav.settings");
    let none = default_sidebar_sections(&vec![pkg("store", "Store", "app")], &KeyText);
    assert_eq!(none[1].items.len(), 4);
    assert_eq!(by_kind(&reg, "manager").len(), 1);
    assert_eq!(nav_item(&reg[2], &KeyText).label, "Wiki");
}

#[test]
fn help_topics_filter() {
    let all = help_topics();
    assert_eq!(filter_topics(&all, "").len(), 7);
    let hits = filter_topics(&all, "STORE");
    let ids: Vec<&str> = hits.iter().map(|t| t.id).collect();
    assert_eq!(ids, vec!["store"]);
    let hits = filter_topics(&all, "ollama");
    assert_eq!(hits.len(), 1);
    assert_eq!(hits[0].title, "AI Assistant");
    assert!(filter_topics(&all, "zzz").is_empty());
}

fn pin(id: &str, name: &str, kind: &str, pinned: bool) -> PinnablePackage {
    PinnablePackage { package: pkg(id, name, kind), pinned }
}

#[test]
fn pinned_sidebar() {
    let mut reg = vec![
        pin("fs-desktop", "Desktop", "app", false),
        pin("store", "Store", "app", false),
        pin("wiki", "Wiki", "app", true),
        pin("theme-manager", "Theme Manager", "manager", false),
    ];
    let s = pinnable_sidebar_sections(&reg, "M", &KeyText);
    assert_eq!(s.len(), 1);
    assert_eq!(s[0].label, "Apps");
    let ids: Vec<&str> = s[0].items.iter().map(|i| i.id.as_str()).collect();
    assert_eq!(ids, vec!["store", "managers-folder"]);
    assert_eq!(s[0].items[1].icon, "M");
    let p = pinned_sidebar_items(&reg, "S", &KeyText);
    let ids: Vec<&str> = p.iter().map(|i| i.id.as_str()).collect();
    assert_eq!(ids, vec!["wiki", "settings"]);
    assert_eq!(p[0].label, "Wiki");
    assert_eq!(p[1].label, "shell.nav.settings");
    assert_eq!(p[1].icon, "S");
    assert!(toggle_pin(&mut reg, "store"));
    assert!(reg[1].pinned);
    let p = pinned_sidebar_items(&reg, "S", &KeyText);
    assert_eq!(p.len(), 3);
    assert!(toggle_pin(&mut reg, "store"));
    assert!(!reg[1].pinned);
    assert!(!toggle_pin(&mut reg, "settings"));
    reg.remove(0);
    assert_eq!(pinned_sidebar_items(&reg, "S", &KeyText).len(), 1);
}
