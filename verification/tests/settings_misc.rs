use fs_desktop::desktop_settings::{
    ClickStyle, DesktopTab, DisplayMode, DoubleClickAction, FocusPolicy, PanelArrangement,
    ResizeEdgeSize, SidebarPosition, TaskbarPosition, TitleBarStyle,
};
use fs_desktop::ai::{ai_api_url, is_ai_installed, AiStatus, EngineState};
use fs_desktop::bots::BotKind;
use fs_desktop::language::{builtin_languages, installed_languages, LanguageState};
use fs_desktop::text::decimal_string;
use fs_desktop::language::{selection_marker, LanguageList};
use fs_desktop::picker::{PickerState, ThemeChoice};

#[test]
fn ai_status() {
    let running = EngineState { installed: true, running_port: Some(1234) };
    assert!(is_ai_installed(&running));
    assert_eq!(ai_api_url(&running).as_deref(), Some("http://127.0.0.1:1234/v1"));
    let stopped = EngineState { installed: false, running_port: None };
    assert!(!AiStatus::is_installed(&stopped));
    assert_eq!(AiStatus::api_url(&stopped), None);
}

#[test]
fn decimal_numbers() {
    assert_eq!(decimal_string(0), "0");
    assert_eq!(decimal_string(7), "7");
    assert_eq!(decimal_string(65535), "65535");
    assert_eq!(decimal_string(u64::MAX), u64::MAX.to_string());
}

#[test]
fn bot_kinds() {
    assert_eq!(BotKind::UserBot.label(), "Personal Assistant");
    assert_eq!(BotKind::Gatekeeper.label(), "Gatekeeper");
    assert_eq!(BotKind::Monitor.icon(), "📊");
}

#[test]
fn installed_language_list() {
    let builtins = builtin_languages();
    assert_eq!(builtins, vec![("en".to_string(), "English".to_string())]);
    let packs = vec![
        ("de".to_string(), "Deutsch".to_string()),
        ("en".to_string(), "English (pack)".to_string()),
    ];
    let list = installed_languages(&builtins, &packs);
    assert_eq!(list.len(), 2);
    assert_eq!(list[0].code, "en");
    assert!(list[0].builtin);
    assert_eq!(list[0].label(), "English (built-in)");
    assert_eq!(list[1].code, "de");
    assert!(!list[1].builtin);
    assert_eq!(list[1].label(), "Deutsch");
    let mut state = LanguageState::new(&packs, "de".to_string());
    assert_eq!(state.selected, "de");
    assert_eq!(state.installed.len(), 2);
    state.select("en".to_string());
    assert_eq!(state.selected, "en");
}

#[test]
fn desktop_language_list() {
    let packs = vec![
        ("en".to_string(), "English (pack)".to_string()),
        ("nl".to_string(), "Nederlands".to_string()),
        ("pl".to_string(), "Polski".to_string()),
    ];
    let mut l = LanguageList::new(&packs);
    assert_eq!(l.entries.len(), 8);
    assert_eq!(l.entries[0].code, "de");
    assert_eq!(l.entries[6].code, "nl");
    assert!(!l.entries[6].builtin);
    assert_eq!(l.selected, "de");
    assert!(l.is_selected(0));
    assert!(l.scrolls());
    assert_eq!(l.count_label(), "(8 installed)");
    l.select("nl".to_string());
    assert!(l.is_selected(6));
    assert!(!l.is_selected(0));
    l.toggle_install_hint();
    assert!(l.install_hint);
    let short = LanguageList::new(&Vec::new());
    assert!(!short.scrolls());
    assert_eq!(short.count_label(), "(6 installed)");
    assert_eq!(selection_marker(true), "◉");
    assert_eq!(selection_marker(false), "○");
}

#[test]
fn theme_picker_marks_and_applies() {
    let themes = vec![
        ThemeChoice { id: "midnight".to_string(), display_name: "Midnight Blue".to_string(), is_dark: true },
        ThemeChoice { id: "paper".to_string(), display_name: "Paper".to_string(), is_dark: false },
    ];
    let mut p = PickerState::new("midnight");
    let rows = p.theme_rows(&themes);
    assert_eq!(rows.len(), 2);
    assert!(rows[0].marked);
    assert_eq!(rows[0].marker, "◉");
    assert_eq!(rows[0].icon, "🌙");
    assert_eq!(rows[0].mode, "Dark");
    assert_eq!(rows[1].marker, "○");
    assert_eq!(rows[1].icon, "☀");
    assert_eq!(rows[1].mode, "Light");
    assert_eq!(rows[1].name, "Paper");
    p.select("paper");
    assert!(!p.saved);
    assert!(p.theme_rows(&themes)[1].marked);
    assert_eq!(p.apply(), "paper");
    assert!(p.saved);
    p.select("midnight");
    assert!(!p.saved);
}

#[test]
fn settings_enum_defaults() {
    assert_eq!(TaskbarPosition::default(), TaskbarPosition::Bottom);
    assert_eq!(DisplayMode::default(), DisplayMode::Window);
    assert_eq!(SidebarPosition::default(), SidebarPosition::Left);
    assert_eq!(TitleBarStyle::default(), TitleBarStyle::Full);
    assert_eq!(ResizeEdgeSize::default(), ResizeEdgeSize::Normal);
    assert_eq!(ResizeEdgeSize::default().pixels(), 4);
    assert_eq!(DoubleClickAction::default(), DoubleClickAction::Maximize);
    assert_eq!(FocusPolicy::default(), FocusPolicy::Click);
    assert_eq!(ClickStyle::default(), ClickStyle::Double);
    assert_eq!(PanelArrangement::default(), PanelArrangement::Default);
    assert_eq!(DesktopTab::default(), DesktopTab::General);
    assert_eq!(DesktopTab::all()[0], DesktopTab::default());
}
