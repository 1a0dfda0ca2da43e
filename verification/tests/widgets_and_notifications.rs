use fs_desktop::notification::{
    NotificationHistory, NotificationKind, NotificationManager, NotificationStyle, MAX_HISTORY,
    MAX_TOASTS,
};
use fs_desktop::widgets::WidgetKind;

#[test]
fn widget_keys_round_trip() {
    let kinds = vec![
        WidgetKind::Clock,
        WidgetKind::SystemInfo,
        WidgetKind::Messages,
        WidgetKind::MyTasks,
        WidgetKind::QuickNotes,
        WidgetKind::Weather,
        WidgetKind::BotStatus("news".to_string()),
        WidgetKind::Custom("x:y".to_string()),
    ];
    for k in &kinds {
        let key = k.as_str();
        let back = WidgetKind::from_key(&key).expect("parses");
        assert_eq!(back.as_str(), key);
    }
    assert_eq!(WidgetKind::BotStatus("news".into()).as_str(), "bot:news");
    assert_eq!(WidgetKind::Custom("w".into()).as_str(), "custom:w");
    assert!(WidgetKind::from_key("nonsense").is_none());
    assert!(matches!(WidgetKind::from_key("custom:"), Some(WidgetKind::Custom(ref s)) if s.is_empty()));
}

#[test]
fn widget_labels_and_icons() {
    assert_eq!(WidgetKind::SystemInfo.label(), "System Info");
    assert_eq!(WidgetKind::BotStatus("b1".into()).label(), "Bot: b1");
    assert_eq!(WidgetKind::Custom("Mine".into()).label(), "Mine");
    assert_eq!(WidgetKind::Weather.icon(), "🌤");
    assert!(WidgetKind::Clock.icon_url().ends_with("/apps/scalable/preferences-system-time.svg"));
    assert_eq!(WidgetKind::all().len(), 6);
}

#[test]
fn toasts_are_capped() {
    let mut m = NotificationManager::default();
    let mut ids = vec![];
    for i in 0..(MAX_TOASTS + 2) {
        ids.push(m.push(NotificationKind::Info, &format!("n{i}"), None));
    }
    assert_eq!(ids, (0..(MAX_TOASTS as u64 + 2)).collect::<Vec<_>>());
    assert_eq!(m.items().len(), MAX_TOASTS);
    assert_eq!(m.items()[0].id, 2);
    m.dismiss(3);
    assert_eq!(m.items().len(), MAX_TOASTS - 1);
    assert!(m.items().iter().all(|n| n.id != 3));
    m.dismiss(999);
    assert_eq!(m.items().len(), MAX_TOASTS - 1);
}

#[test]
fn history_newest_first_and_read_state() {
    let mut h = NotificationHistory::default();
    h.push(NotificationKind::Warning, "first", None);
    h.push(NotificationKind::Error, "second", Some("body".to_string()));
    assert_eq!(h.entries()[0].title, "second");
    assert_eq!(h.unread_count(), 2);
    h.mark_all_read();
    assert_eq!(h.unread_count(), 0);
    assert_eq!(h.entries().len(), 2);
    for i in 0..(MAX_HISTORY + 5) {
        h.push(NotificationKind::Info, &format!("e{i}"), None);
    }
    assert_eq!(h.entries().len(), MAX_HISTORY);
    assert_eq!(h.unread_count(), MAX_HISTORY);
}

#[test]
fn accent_colours() {
    assert_eq!(NotificationKind::Info.accent_color(), "#06b6d4");
    assert_eq!(NotificationKind::Error.accent_color(), "#ef4444");
    assert_eq!(NotificationKind::default(), NotificationKind::Info);
}

#[test]
fn picker_offers_builtin_and_store_widgets() {
    let kinds = fs_desktop::widgets::all_picker_widgets(&vec!["weather-pro".to_string()]);
    assert_eq!(kinds.len(), 7);
    assert_eq!(kinds[6].as_str(), fs_desktop::widgets::WidgetKind::Custom("weather-pro".to_string()).as_str());
    assert_eq!(fs_desktop::widgets::all_picker_widgets(&Vec::new()).len(), 6);
}

#[test]
fn toast_stack_grows_until_full() {
    let mut m = NotificationManager::default();
    for i in 0..MAX_TOASTS {
        let before = m.items().len();
        m.push(NotificationKind::Success, &format!("t{i}"), None);
        assert_eq!(m.items().len(), before + 1);
    }
    let id = m.push(NotificationKind::Success, "overflow", Some("b".to_string()));
    assert_eq!(m.items().len(), MAX_TOASTS);
    let last = m.items().last().unwrap();
    assert_eq!(last.id, id);
    assert_eq!(last.title, "overflow");
    let ids: Vec<u64> = m.items().iter().map(|n| n.id).collect();
    assert!(ids.windows(2).all(|w| w[0] < w[1]));
    assert!(ids.iter().all(|&i| i <= id));
}

#[test]
fn history_push_adds_one_unread() {
    let mut h = NotificationHistory::default();
    h.push(NotificationKind::Info, "a", None);
    h.mark_all_read();
    let before = h.unread_count();
    h.push(NotificationKind::Info, "b", None);
    assert_eq!(h.unread_count(), before + 1);
    assert_eq!(h.entries().len(), 2);
    assert!(h.entries()[0].id > h.entries()[1].id);
    assert!(!h.entries()[0].read);
}
