use fs_desktop::header::HeaderState;
use fs_desktop::launcher::{AppGroup, LauncherState};
use fs_desktop::notification::NotificationKind;
use fs_desktop::shell::{app_for_sidebar_id, AppId, DesktopMessage, DesktopShell, ShellEffect};
use fs_desktop::taskbar::{default_apps, AppEntry, WindowId};

fn shell() -> DesktopShell {
    DesktopShell::new("alice", default_apps("🛍"), "10:00".to_string(), "01.01.2025".to_string())
}

#[test]
fn new_shell_is_on_home_screen() {
    let s = shell();
    assert!(s.active_app.is_none());
    assert_eq!(s.header_state.user_name, "alice");
    assert!(!s.launcher_state.open);
    assert_eq!(s.current_desktop, 0);
    assert!(s.notifications.items().is_empty());
}

#[test]
fn open_app_sets_active_and_asks_for_window() {
    let mut s = shell();
    let e = s.update(DesktopMessage::OpenApp(AppId::Store));
    assert_eq!(e, ShellEffect::OpenWindow(AppId::Store));
    assert_eq!(s.active_app, Some(AppId::Store));
    assert_eq!(s.update(DesktopMessage::CloseWindow(WindowId(3))), ShellEffect::CloseWindow(WindowId(3)));
    s.after_window_closed(1);
    assert_eq!(s.active_app, Some(AppId::Store));
    s.after_window_closed(0);
    assert_eq!(s.active_app, None);
}

#[test]
fn sidebar_select_maps_ids() {
    assert_eq!(app_for_sidebar_id("browser"), Some(AppId::Browser));
    assert_eq!(app_for_sidebar_id("container-app"), Some(AppId::Container));
    assert_eq!(app_for_sidebar_id("managers-folder"), Some(AppId::Managers));
    assert_eq!(app_for_sidebar_id("managers"), Some(AppId::Managers));
    assert_eq!(app_for_sidebar_id("unknown"), None);
    let mut s = shell();
    s.update(DesktopMessage::SidebarSelect("help".to_string()));
    assert_eq!(s.active_app, Some(AppId::Help));
    s.update(DesktopMessage::SidebarSelect("nope".to_string()));
    assert_eq!(s.active_app, Some(AppId::Help));
}

#[test]
fn menu_actions() {
    let mut s = shell();
    s.update(DesktopMessage::HeaderMenuToggle(2));
    assert_eq!(s.header_state.open_menu, Some(2));
    s.update(DesktopMessage::MenuAction("launcher".to_string()));
    assert_eq!(s.header_state.open_menu, None);
    assert!(s.launcher_state.open);
    s.update(DesktopMessage::MenuAction("settings".to_string()));
    assert_eq!(s.active_app, Some(AppId::Settings));
    assert!(s.launcher_state.open);
}

#[test]
fn header_toggles() {
    let mut s = shell();
    s.update(DesktopMessage::HeaderMenuToggle(1));
    s.update(DesktopMessage::HeaderMenuToggle(1));
    assert_eq!(s.header_state.open_menu, None);
    s.update(DesktopMessage::HeaderAvatarToggle);
    assert!(s.header_state.avatar_menu_open);
    s.update(DesktopMessage::HeaderMenuToggle(0));
    s.update(DesktopMessage::HeaderMenuClose);
    assert_eq!(s.header_state.open_menu, None);
}

#[test]
fn launcher_messages() {
    let mut s = shell();
    s.update(DesktopMessage::LauncherToggle);
    assert!(s.launcher_state.open);
    s.update(DesktopMessage::LauncherSearch("sto".to_string()));
    assert_eq!(s.launcher_state.query, "sto");
    s.update(DesktopMessage::LauncherGotoPage(4));
    assert_eq!(s.launcher_state.page, 4);
    s.update(DesktopMessage::LauncherPrevPage);
    assert_eq!(s.launcher_state.page, 3);
    // One group only: next page stays.
    s.update(DesktopMessage::LauncherGotoPage(0));
    s.update(DesktopMessage::LauncherNextPage);
    assert_eq!(s.launcher_state.page, 0);
    s.update(DesktopMessage::LauncherLaunch("store".to_string()));
    assert!(!s.launcher_state.open);
    assert_eq!(s.launcher_state.query, "");
    assert_eq!(s.active_app, Some(AppId::Store));
}

#[test]
fn notifications_through_shell() {
    let mut s = shell();
    let id = s.notifications.push(NotificationKind::Info, "hello", None);
    s.notification_history.push(NotificationKind::Info, "hello", None);
    assert_eq!(s.notification_history.unread_count(), 1);
    s.update(DesktopMessage::NotificationDismiss(id));
    assert!(s.notifications.items().is_empty());
    s.update(DesktopMessage::NotificationMarkRead);
    assert_eq!(s.notification_history.unread_count(), 0);
    assert_eq!(s.update(DesktopMessage::ClockTick), ShellEffect::RefreshClock);
    s.set_clock("11:30".to_string(), "02.01.2025".to_string());
    assert_eq!(s.clock_time, "11:30");
    assert_eq!(s.update(DesktopMessage::Noop), ShellEffect::Nothing);
}

#[test]
fn launcher_state_behaviour() {
    let mut l = LauncherState::default();
    l.toggle();
    l.set_query("abc".to_string());
    l.next_page(3);
    assert_eq!(l.page, 1);
    l.next_page(2);
    assert_eq!(l.page, 1);
    l.prev_page(2);
    l.prev_page(2);
    assert_eq!(l.page, 0);
    l.toggle();
    assert!(!l.open);
    assert_eq!(l.query, "");
}

fn app(id: &str, label: &str, group: Option<&str>) -> AppEntry {
    let mut a = AppEntry::new(id, label, "*");
    a.group = group.map(|g| g.to_string());
    a
}

#[test]
fn launcher_groups_and_pages() {
    let apps = vec![
        app("store", "Store", Some("System")),
        app("notes", "Notes", Some("Office")),
        app("calc", "Calculator", Some("Office")),
        app("misc", "Misc", None),
        app("term", "Terminal", Some("System")),
        app("web", "Browser", Some("Web")),
    ];
    let groups = AppGroup::from_entries(&apps);
    let labels: Vec<&str> = groups.iter().map(|g| g.label.as_str()).collect();
    assert_eq!(labels.len(), 4);
    assert_eq!(AppGroup::total_pages(&groups), 2);
    assert_eq!(AppGroup::page_slice(&groups, 1).len(), 1);
    assert_eq!(AppGroup::page_slice(&groups, 5).len(), 0);
    let office = AppGroup::filtered(&apps, "CALC");
    assert_eq!(office.len(), 1);
    assert_eq!(office[0].apps.len(), 1);
    assert_eq!(office[0].apps[0].id, "calc");
    assert_eq!(AppGroup::total_pages(&AppGroup::filtered(&apps, "zzz")), 1);
}

#[test]
fn header_state_builder() {
    let h = HeaderState::new("bob").with_breadcrumb("Store");
    assert_eq!(h.breadcrumbs.len(), 1);
    assert_eq!(h.breadcrumbs[0].label, "Store");
    assert!(h.open_menu.is_none());
}

use fs_desktop::shell::{avatar_initial, bell_label, tile_icon};

#[test]
fn chrome_labels() {
    assert_eq!(bell_label(0), "🔔");
    assert_eq!(bell_label(3), "🔔 3");
    assert_eq!(bell_label(12), "🔔 12");
    assert_eq!(avatar_initial("alice"), "A");
    assert_eq!(avatar_initial(""), "?");
    assert_eq!(avatar_initial("ßigma"), "SS");
    assert_eq!(tile_icon("<svg/>"), "●");
    assert_eq!(tile_icon("🛍"), "🛍");
    assert_eq!(tile_icon(""), "");
}

#[test]
fn launcher_page_view() {
    let apps = vec![
        app("store", "Store", Some("System")),
        app("notes", "Notes", Some("Office")),
        app("calc", "Calculator", Some("Office")),
        app("misc", "Misc", None),
        app("term", "Terminal", Some("System")),
        app("web", "Browser", Some("Web")),
    ];
    let mut s = DesktopShell::new("alice", apps, "10:00".to_string(), "01.01.2025".to_string());
    let p = s.launcher_page();
    assert_eq!(p.total, 2);
    assert_eq!(p.current, 0);
    assert_eq!(p.groups.len(), 3);
    assert!(!p.no_match);
    assert_eq!(p.label.as_deref(), Some("1 / 2"));
    assert_eq!(p.dots, vec![true, false]);
    s.update(DesktopMessage::LauncherGotoPage(7));
    let p = s.launcher_page();
    assert_eq!(p.current, 1);
    assert_eq!(p.groups.len(), 1);
    assert_eq!(p.label.as_deref(), Some("2 / 2"));
    assert_eq!(p.dots, vec![false, true]);
    s.update(DesktopMessage::LauncherSearch("zzz".to_string()));
    let p = s.launcher_page();
    assert!(p.no_match);
    assert_eq!(p.total, 1);
    assert!(p.label.is_none());
    assert!(p.dots.is_empty());
    assert!(p.groups.is_empty());
}

#[test]
fn empty_query_keeps_every_app() {
    let apps = vec![
        app("store", "Store", Some("System")),
        app("notes", "Notes", Some("Office")),
        app("misc", "Misc", None),
    ];
    let all = AppGroup::from_entries(&apps);
    let filtered = AppGroup::filtered(&apps, "");
    assert_eq!(all.len(), filtered.len());
    for (a, b) in all.iter().zip(filtered.iter()) {
        assert_eq!(a.id, b.id);
        assert_eq!(a.label, b.label);
        let ia: Vec<&str> = a.apps.iter().map(|x| x.id.as_str()).collect();
        let ib: Vec<&str> = b.apps.iter().map(|x| x.id.as_str()).collect();
        assert_eq!(ia, ib);
    }
}

#[test]
fn pages_cover_groups_exactly_once() {
    let apps = vec![
        app("a1", "A1", Some("A")),
        app("b1", "B1", Some("B")),
        app("c1", "C1", Some("C")),
        app("d1", "D1", Some("D")),
        app("e1", "E1", Some("E")),
        app("f1", "F1", Some("F")),
        app("g1", "G1", Some("G")),
    ];
    let groups = AppGroup::from_entries(&apps);
    let total = AppGroup::total_pages(&groups);
    assert_eq!(total, 3);
    let mut seen: Vec<String> = vec![];
    for p in 0..total {
        let page = AppGroup::page_slice(&groups, p);
        assert!(!page.is_empty());
        seen.extend(page.iter().map(|g| g.id.clone()));
    }
    let expected: Vec<String> = groups.iter().map(|g| g.id.clone()).collect();
    assert_eq!(seen, expected);
    assert!(AppGroup::page_slice(&groups, total).is_empty());
}

#[test]
fn new_shell_header_has_no_breadcrumbs_or_avatar() {
    let s = shell();
    assert!(s.header_state.breadcrumbs.is_empty());
    assert!(s.header_state.user_avatar.is_none());
    assert!(s.header_state.open_menu.is_none());
    assert!(!s.header_state.avatar_menu_open);
}
