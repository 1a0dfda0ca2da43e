use fs_desktop::desktop::{
    active_app_id, breadcrumb_label, breadcrumbs, forget_window, front_window, menu_action,
    open_app, window_contents, MenuCommand, OpenOutcome, SidebarAutoHide, WindowApp, WindowInfo,
    WindowLayout,
};
use fs_desktop::taskbar::{AppEntry, WindowId};

fn win(id: u64, title: &str, minimized: bool, z: u32) -> WindowInfo {
    WindowInfo { id: WindowId(id), title_key: title.to_string(), minimized, z_index: z }
}

#[test]
fn menu_commands() {
    assert!(matches!(menu_action("theme-nordic"), MenuCommand::SetTheme("nordic")));
    assert!(matches!(menu_action("theme-rose-pine"), MenuCommand::SetTheme("rose-pine")));
    assert!(matches!(menu_action("launcher"), MenuCommand::ToggleLauncher));
    assert!(matches!(menu_action("about"), MenuCommand::Ignore));
}

#[test]
fn sidebar_hides_only_after_undisturbed_timer() {
    let mut s = SidebarAutoHide::new();
    let t1 = s.on_leave();
    s.on_enter();
    s.on_hide_timer(t1);
    assert!(s.visible);
    let t2 = s.on_leave();
    s.on_hide_timer(t2);
    assert!(!s.visible);
    assert_eq!(s.transform(), "translateX(-240px)");
    s.on_enter();
    assert_eq!(s.transform(), "translateX(0)");
}

#[test]
fn opening_apps_focuses_or_opens() {
    let mut apps = vec![AppEntry::new("store", "Store", "*"), AppEntry::new("help", "Help", "?")];
    match open_app(&mut apps, "store", WindowId(7)) {
        OpenOutcome::Open(t) => assert_eq!(t, "app-store"),
        other => panic!("unexpected {other:?}"),
    }
    assert_eq!(apps[0].windows, vec![WindowId(7)]);
    match open_app(&mut apps, "store", WindowId(8)) {
        OpenOutcome::Focus(w) => assert_eq!(w, WindowId(7)),
        other => panic!("unexpected {other:?}"),
    }
    assert_eq!(apps[0].windows, vec![WindowId(7)]);
    match open_app(&mut apps, "ghost", WindowId(9)) {
        OpenOutcome::Open(t) => assert_eq!(t, "app-ghost"),
        other => panic!("unexpected {other:?}"),
    }
    forget_window(&mut apps, WindowId(7));
    assert!(apps[0].windows.is_empty());
}

#[test]
fn front_window_and_breadcrumbs() {
    let ws = vec![
        win(1, "app-store", false, 3),
        win(2, "app-help", true, 9),
        win(3, "app-settings", false, 3),
    ];
    assert_eq!(front_window(&ws), Some(2));
    assert_eq!(active_app_id(&ws), "settings");
    assert_eq!(breadcrumbs(&ws)[0].label, "Settings");
    let none = vec![win(1, "app-store", true, 1)];
    assert_eq!(front_window(&none), None);
    assert_eq!(active_app_id(&none), "");
    assert_eq!(breadcrumbs(&none)[0].label, "Desktop");
    assert_eq!(breadcrumb_label("app-ai"), "AI Assistant");
    assert_eq!(breadcrumb_label("app-app-custom"), "custom");
    assert_eq!(active_app_id(&vec![win(1, "studio", false, 1)]), "");
}

#[test]
fn window_contents_by_title_key() {
    assert_eq!(window_contents("app-store"), Ok((WindowApp::Store, WindowLayout::A)));
    assert_eq!(window_contents("app-profile"), Ok((WindowApp::Profile, WindowLayout::C)));
    assert_eq!(window_contents("app-settings"), Ok((WindowApp::Settings, WindowLayout::Plain)));
    assert_eq!(window_contents("app-conductor"), Ok((WindowApp::Conductor, WindowLayout::Plain)));
    assert_eq!(window_contents("app-help"), Ok((WindowApp::Help, WindowLayout::A)));
    assert_eq!(window_contents("app-tasks"), Err("Unknown app: app-tasks".to_string()));
}
