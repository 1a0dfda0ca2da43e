use fs_desktop::accounts::{AccountsState, AddProviderForm};
use fs_desktop::chrome::{SplitState, WebTaskbarState};
use fs_desktop::desktop_settings::{builtin_themes, AppearanceState, DesktopTab, DisplayMode, ResizeEdgeSize};
use fs_desktop::header::{default_menu, KeyText, MenuAction};
use fs_desktop::profile::{
    capitalize, PersonalCapability, ProfileApp, ProfileCommand, ProfileMessage, UserProfile,
};
use fs_desktop::shortcuts::{register_actions, resolve_shortcut, ShortcutsConfig, ShortcutsState};
use fs_desktop::desktop_settings::{ClickStyle, FocusPolicy, TaskbarPosition, TitleBarStyle};

fn profile() -> UserProfile {
    UserProfile {
        display_name: "Alice".into(),
        email: "a@example.org".into(),
        avatar_url: Some("http://x/a.png".into()),
        bio: String::new(),
        ssh_keys: vec![],
        timezone: "UTC".into(),
        linked_accounts: vec![],
        personal_capabilities: vec![],
    }
}

#[test]
fn profile_editing() {
    let mut app = ProfileApp::new(profile());
    app.update_at(ProfileMessage::DisplayNameChanged("Al".into()), String::new(), String::new());
    assert_eq!(app.profile.display_name, "Al");
    app.update_at(ProfileMessage::AvatarRemove, String::new(), String::new());
    assert!(app.profile.avatar_url.is_none());
    app.update_at(ProfileMessage::ShowAddKey, String::new(), String::new());
    app.update_at(ProfileMessage::NewKeyLabelChanged("laptop".into()), String::new(), String::new());
    // Missing key value: nothing is added.
    app.update_at(ProfileMessage::AddKey, "2025-01-01".into(), String::new());
    assert!(app.profile.ssh_keys.is_empty());
    app.update_at(ProfileMessage::NewKeyValueChanged("ssh-ed25519 AAA".into()), String::new(), String::new());
    app.update_at(ProfileMessage::AddKey, "2025-01-01".into(), String::new());
    assert_eq!(app.profile.ssh_keys.len(), 1);
    assert_eq!(app.profile.ssh_keys[0].added_at, "2025-01-01");
    assert!(!app.show_add_key);
    assert_eq!(app.new_key_label, "");
    app.update_at(ProfileMessage::RemoveKey(5), String::new(), String::new());
    assert_eq!(app.profile.ssh_keys.len(), 1);
    app.update_at(ProfileMessage::RemoveKey(0), String::new(), String::new());
    assert!(app.profile.ssh_keys.is_empty());
    match app.update_at(ProfileMessage::Save, String::new(), String::new()) {
        ProfileCommand::Save(p) => assert_eq!(p.display_name, "Al"),
        ProfileCommand::Idle => panic!("expected save"),
    }
    app.update_at(ProfileMessage::SaveResult(Ok(())), String::new(), "Saved".into());
    assert_eq!(app.save_msg.as_deref(), Some("Saved"));
    assert!(!app.save_error);
}

#[test]
fn capability_labels() {
    let m = PersonalCapability::MessengerAccount { platform: "telegram".into(), username: "alice".into(), verified: true };
    assert_eq!(m.label(), "Telegram (@alice)");
    assert_eq!(m.icon(), "💬");
    let t = PersonalCapability::TaskManager { service_id: "tasks1".into() };
    assert_eq!(t.label(), "Task Manager (tasks1)");
    let l = PersonalCapability::LlmAssistant { provider: "local".into(), model: "qwen".into() };
    assert_eq!(l.label(), "LLM: local / qwen");
    assert_eq!(l.kind_label(), "LLM Assistant");
    assert_eq!(capitalize(""), "");
}

#[test]
fn provider_form() {
    let mut f = AddProviderForm::new();
    assert!(!f.is_valid());
    f.name = "  Keycloak ".into();
    f.discovery_url = "https://id.example.org ".into();
    f.client_id = " fsn".into();
    assert!(f.is_valid());
    let p = f.build();
    assert_eq!(p.name, "Keycloak");
    assert_eq!(p.scopes, "openid email profile");
    assert!(p.enabled);
    let mut st = AccountsState::new(vec![p]);
    st.save(Err("disk full".into()));
    assert_eq!(st.error.as_deref(), Some("Save error: disk full"));
    st.save(Ok(()));
    assert!(st.error.is_none());
}

#[test]
fn shortcuts_resolution() {
    let actions = register_actions(&KeyText);
    assert_eq!(actions.len(), 14);
    assert_eq!(actions[0].id, "app.settings");
    let empty = ShortcutsConfig::default();
    assert_eq!(resolve_shortcut(&actions[0], &empty), Some("Ctrl+,"));
    assert_eq!(resolve_shortcut(&actions[4], &empty), None);
    let custom = ShortcutsConfig { custom: vec![("app.settings".into(), "Ctrl+P".into())] };
    assert_eq!(resolve_shortcut(&actions[0], &custom), Some("Ctrl+P"));
    let st = ShortcutsState::new(custom);
    assert!(st.recording.is_none());
}

#[test]
fn desktop_settings_values() {
    assert_eq!(DisplayMode::Tui.label(), "TUI");
    assert_eq!(ResizeEdgeSize::Wide.pixels(), 8);
    assert_eq!(DesktopTab::all().len(), 6);
    assert_eq!(DesktopTab::Icons.label(&KeyText), "settings-desktop-tab-icons");
    assert_eq!(builtin_themes()[0], ("midnight-blue", "Midnight Blue"));
    let a = AppearanceState::new();
    assert_eq!(a.config_text(), "theme = \"midnight-blue\"\nanimations_enabled = true\n");
}

#[test]
fn cycles() {
    assert_eq!(SplitState::default().next().next().next(), SplitState::Half);
    assert_eq!(WebTaskbarState::Fixed.next(), WebTaskbarState::SlideUp);
    assert_eq!(WebTaskbarState::Hidden.next(), WebTaskbarState::Fixed);
}

#[test]
fn default_menu_structure() {
    let menu = default_menu(&KeyText);
    assert_eq!(menu.len(), 5);
    assert_eq!(menu[0].label, "FreeSynergy");
    assert_eq!(menu[1].label, "shell.menu.view");
    match &menu[0].items[1] {
        MenuAction::Action { id, shortcut, .. } => {
            assert_eq!(*id, "settings");
            assert_eq!(*shortcut, Some("Ctrl+,"));
        }
        other => panic!("unexpected {other:?}"),
    }
}

#[test]
fn ssh_key_preview_shortens_long_keys() {
    let long = "ssh-ed25519 AAAAC3NzaC1lZDI1NTE5AAAAIOMqqnkVzrm0SdG6UOoqKLsabgH5C9okWi0dh2l9GKJl";
    let key = fs_desktop::profile::SshKey {
        label: "laptop".to_string(),
        public_key: long.to_string(),
        added_at: "2025-01-01".to_string(),
    };
    let p = key.preview();
    assert_eq!(p.chars().count(), 49);
    assert!(p.ends_with('…'));
    assert_eq!(&p[..48], &long[..48]);
    let short = fs_desktop::profile::SshKey {
        label: "x".to_string(),
        public_key: "ssh-rsa AB".to_string(),
        added_at: String::new(),
    };
    assert_eq!(short.preview(), "ssh-rsa AB…");
}

#[test]
fn accounts_display_lists_providers() {
    let empty = AccountsState::new(Vec::new());
    let d = empty.display(&KeyText);
    assert_eq!(d.toggle_label, "settings-accounts-btn-connect");
    assert_eq!(d.empty_text.as_deref(), Some("settings-accounts-empty"));
    assert!(d.rows.is_empty());
    assert!(!d.can_add);
    let mut form = AddProviderForm::new();
    form.name = " Kanidm ".to_string();
    form.discovery_url = "https://auth.example.com".to_string();
    form.client_id = "fs-desktop".to_string();
    let p = form.build();
    let mut st = AccountsState::new(vec![p]);
    st.show_add = true;
    st.form = form;
    let d = st.display(&KeyText);
    assert_eq!(d.toggle_label, "actions.cancel");
    assert!(d.form_open);
    assert!(d.can_add);
    assert!(d.empty_text.is_none());
    assert_eq!(d.rows.len(), 1);
    assert_eq!(d.rows[0].name, "Kanidm");
    assert_eq!(d.rows[0].details, "client_id: fs-desktop  scopes: openid email profile");
    assert!(d.rows[0].enabled);
}

#[test]
fn desktop_choice_ids_round_trip() {
    let ids: Vec<&str> = TaskbarPosition::all().iter().map(|p| p.id()).collect();
    assert_eq!(ids, vec!["bottom", "top", "left", "right"]);
    for p in TaskbarPosition::all() {
        assert_eq!(TaskbarPosition::from_id(p.id()), Some(p));
    }
    let ids: Vec<&str> = FocusPolicy::all().iter().map(|p| p.id()).collect();
    assert_eq!(ids, vec!["click", "focus_follows_mouse", "strict_follows_mouse"]);
    for p in FocusPolicy::all() {
        assert_eq!(FocusPolicy::from_id(p.id()), Some(p));
    }
    for t in TitleBarStyle::all() {
        assert_eq!(TitleBarStyle::from_id(t.id()), Some(t));
    }
    assert_eq!(TitleBarStyle::Minimal.id(), "minimal");
    assert_eq!(ClickStyle::from_id("double"), Some(ClickStyle::Double));
    assert_eq!(ClickStyle::Single.id(), "single");
    assert_eq!(TaskbarPosition::from_id("middle"), None);
    assert_eq!(FocusPolicy::from_id(""), None);
}

#[test]
fn new_key_is_stamped_with_todays_date() {
    let mut app = ProfileApp::new(profile());
    app.update(ProfileMessage::ShowAddKey, &KeyText);
    app.update(ProfileMessage::NewKeyLabelChanged("desk".into()), &KeyText);
    app.update(ProfileMessage::NewKeyValueChanged("ssh-ed25519 BBB".into()), &KeyText);
    app.update(ProfileMessage::AddKey, &KeyText);
    assert_eq!(app.profile.ssh_keys.len(), 1);
    let d = &app.profile.ssh_keys[0].added_at;
    assert_eq!(d.len(), 10);
    assert_eq!(&d[4..5], "-");
    assert_eq!(&d[7..8], "-");
    assert!(d[..4].parse::<u32>().unwrap() >= 2024);
    app.update(ProfileMessage::SaveResult(Ok(())), &KeyText);
    assert_eq!(app.save_msg.as_deref(), Some("profile.saved"));
}

#[test]
fn form_trims_unicode_whitespace() {
    let mut f = AddProviderForm::new();
    f.name = "\u{3000}Zitadel\u{a0}\t".into();
    f.discovery_url = "\u{2003}https://z.example.org\n".into();
    f.client_id = "\u{85}id\u{205f}".into();
    f.scopes = "\u{2028} ".into();
    assert!(f.is_valid());
    let p = f.build();
    assert_eq!(p.name, "Zitadel");
    assert_eq!(p.discovery_url, "https://z.example.org");
    assert_eq!(p.client_id, "id");
    assert_eq!(p.scopes, "openid email profile");
    f.client_id = "\u{1680}\u{200a}".into();
    assert!(!f.is_valid());
}
