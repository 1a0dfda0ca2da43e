use fs_desktop::containers::{ContainerInfo, HealthStatus};
use fs_desktop::store::{
    browse_tabs, download_plan, filter_packages, has_update, installed_entries,
    install_file_path, install_result, registry_error_message, FileOutcome, InstallWizard, InstalledEntry, PackageEntry,
    PackageKind, StoreTab, WizardButton, WizardStep,
};

fn pkg(id: &str, name: &str, desc: &str, cat: &str, kind: PackageKind, store_path: Option<&str>) -> PackageEntry {
    PackageEntry {
        id: id.to_string(),
        name: name.to_string(),
        description: desc.to_string(),
        version: "1.0.0".to_string(),
        category: cat.to_string(),
        kind,
        tags: vec![],
        store_path: store_path.map(|s| s.to_string()),
    }
}

#[test]
fn tabs_and_filters() {
    assert_eq!(StoreTab::Bots.kind_filter(), Some(PackageKind::BotCommand));
    assert_eq!(StoreTab::Installed.kind_filter(), None);
    assert_eq!(StoreTab::All.kind_filter(), None);
    assert_eq!(StoreTab::Languages.label(), "Languages");
    let tabs = browse_tabs();
    assert_eq!(tabs.len(), 8);
    assert_eq!(tabs[0], StoreTab::All);
    assert_eq!(tabs[7], StoreTab::Tasks);
}

#[test]
fn package_search_is_case_insensitive_and_kind_aware() {
    let ps = vec![
        pkg("de", "Deutsch", "German language pack", "i18n", PackageKind::Language, None),
        pkg("dark", "Dark", "A DARK theme", "look", PackageKind::Theme, None),
        pkg("clock", "Clock", "Shows the time", "Widgets", PackageKind::Widget, None),
    ];
    assert_eq!(filter_packages(&ps, "", None).len(), 3);
    let dark = filter_packages(&ps, "dark", None);
    assert_eq!(dark.len(), 1);
    assert_eq!(dark[0].id, "dark");
    assert_eq!(filter_packages(&ps, "WIDGET", None)[0].id, "clock");
    assert_eq!(filter_packages(&ps, "", Some(PackageKind::Language)).len(), 1);
    assert_eq!(filter_packages(&ps, "dark", Some(PackageKind::Language)).len(), 0);
}

#[test]
fn wizard_walks_through_steps() {
    let mut w = InstallWizard::new();
    assert_eq!(w.step, WizardStep::Overview);
    assert_eq!(w.primary(), WizardButton::Next);
    assert_eq!(w.cancel_label(), "Cancel");
    w.next();
    assert_eq!(w.step, WizardStep::Configure);
    w.next();
    assert_eq!(w.step, WizardStep::Confirm);
    assert_eq!(w.primary(), WizardButton::Install);
    let d0 = w.dot(0);
    assert!(d0.done && !d0.active);
    assert_eq!(d0.inner, "✓");
    let d2 = w.dot(2);
    assert!(d2.active && !d2.done && d2.last);
    assert_eq!(d2.inner, "3");
    assert_eq!(d2.label, "Confirm");
    w.start_install();
    assert_eq!(w.step, WizardStep::Installing);
    assert_eq!(w.primary(), WizardButton::Hidden);
    w.next();
    assert_eq!(w.step, WizardStep::Installing);
    w.install_finished(Err("offline".to_string()));
    assert_eq!(w.step, WizardStep::Installing);
    assert_eq!(w.install_error.as_deref(), Some("offline"));
    w.install_finished(Ok(()));
    assert_eq!(w.step, WizardStep::Done);
    assert_eq!(w.cancel_label(), "Close");
}

#[test]
fn fresh_wizard_dots() {
    let w = InstallWizard::new();
    let d = w.dot(1);
    assert!(!d.active && !d.done && !d.last);
    assert_eq!(d.inner, "2");
    assert_eq!(WizardStep::Error.label(), "Error");
    assert_eq!(WizardStep::Done.next(), None);
}

#[test]
fn downloads_per_kind() {
    let lang = download_plan(&pkg("de", "Deutsch", "", "", PackageKind::Language, None)).unwrap();
    assert_eq!(lang.url, "shared/i18n/de/ui.toml");
    assert_eq!(lang.dest_dir, "i18n/de");
    assert_eq!(lang.dest_file, "ui.toml");
    let theme = download_plan(&pkg("dark", "Dark", "", "", PackageKind::Theme, Some("themes/dark//"))).unwrap();
    assert_eq!(theme.url, "themes/dark/theme.css");
    assert_eq!(theme.dest_dir, "themes");
    assert_eq!(theme.dest_file, "dark.css");
    assert!(download_plan(&pkg("w", "W", "", "", PackageKind::Widget, None)).is_none());
    assert_eq!(registry_error_message("disk full"), "Registry error: disk full");
    assert_eq!(PackageKind::Theme.done_hint(), "Activate it in Settings → Appearance.");
    assert_eq!(PackageKind::Task.configure_hint(), "No additional configuration required for this package type.");
}

fn container(name: &str, labels: &[(&str, &str)], running: bool) -> ContainerInfo {
    ContainerInfo {
        name: name.to_string(),
        labels: labels.iter().map(|(k, v)| (k.to_string(), v.to_string())).collect(),
        running,
        health: HealthStatus::Unchecked,
    }
}

#[test]
fn installed_modules_from_labels() {
    let cs = vec![
        container("fsn-wiki", &[("fsn.module.id", "wiki"), ("fsn.module.version", "1.2")], true),
        container("postgres", &[], true),
        container("fsn-chat", &[("fsn.module.id", "chat")], false),
    ];
    let es = installed_entries(&cs);
    assert_eq!(es.len(), 2);
    assert_eq!(es[0].module, "wiki");
    assert_eq!(es[0].version, "1.2");
    assert_eq!(es[1].version, "?");
    assert_eq!(es[1].status_label(), "Stopped");
    assert_eq!(es[0].unit_name(), "fsn-wiki.service");
    let e = InstalledEntry::from_container(&container("bare", &[], true));
    assert_eq!(e.module, "bare");
    let catalog = vec![("wiki".to_string(), "1.3".to_string()), ("chat".to_string(), "?".to_string())];
    assert!(has_update(&es[0], &catalog));
    assert!(!has_update(&es[1], &catalog));
    assert!(!has_update(&e, &catalog));
}

#[test]
fn update_badge_and_catalog_summary() {
    let es = installed_entries(&vec![
        container("fsn-wiki", &[("fsn.module.id", "wiki"), ("fsn.module.version", "1.2")], true),
        container("fsn-chat", &[("fsn.module.id", "chat"), ("fsn.module.version", "2")], true),
    ]);
    let catalog = vec![("wiki".to_string(), "1.3".to_string()), ("chat".to_string(), "2".to_string())];
    assert_eq!(fs_desktop::store::update_badge(&es[0], &catalog).as_deref(), Some("→ 1.3"));
    assert!(fs_desktop::store::update_badge(&es[1], &catalog).is_none());
    assert!(fs_desktop::store::update_badge(&es[1], &Vec::new()).is_none());
    assert!(fs_desktop::store::catalog_summary(0).is_none());
    assert_eq!(
        fs_desktop::store::catalog_summary(42).as_deref(),
        Some("42 package(s) available in the catalog.")
    );
}

#[test]
fn install_registers_without_file_after_failed_download() {
    assert_eq!(install_file_path(FileOutcome::NoDownload), Ok(None));
    assert_eq!(install_file_path(FileOutcome::DownloadFailed("timeout".into())), Ok(None));
    assert_eq!(
        install_file_path(FileOutcome::Saved("/home/u/.local/share/fsn/themes/dark.css".into())),
        Ok(Some("/home/u/.local/share/fsn/themes/dark.css".to_string()))
    );
    assert_eq!(install_file_path(FileOutcome::SaveFailed("disk full".into())), Err("disk full".to_string()));
    assert_eq!(install_result(Ok(())), Ok(()));
    assert_eq!(install_result(Err("locked".into())), Err("Registry error: locked".to_string()));
}
