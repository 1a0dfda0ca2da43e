use fs_desktop::help_chat::{chat_reply_text, shortcut_label, ChatFailure, HelpPanel, HelpTab};
use fs_desktop::header::KeyText;
use fs_desktop::shortcuts::{register_actions, ShortcutsConfig};
use fs_desktop::sysinfo::{
    df_kb, format_uptime, lines_of, mem_used_kb, meminfo_kb, parse_u64, words_of,
};

#[test]
fn uptime_text() {
    assert_eq!(format_uptime(59), "0m");
    assert_eq!(format_uptime(3 * 3600 + 7 * 60), "3h 7m");
    assert_eq!(format_uptime(2 * 86400 + 5 * 3600 + 60), "2d 5h 1m");
    assert_eq!(format_uptime(86400), "1d 0h 0m");
}

#[test]
fn numbers_parse_like_std() {
    for s in ["0", "42", "+7", "", "+", "-1", "12a", "18446744073709551615", "18446744073709551616", "007"] {
        assert_eq!(parse_u64(s), s.parse::<u64>().ok(), "{s}");
    }
}

#[test]
fn lines_and_words_like_std() {
    for s in ["", "\n", "a\nb", "a\r\nb\n", "foo\r\nbar\n\nbaz\r", "x\n\n"] {
        let got = lines_of(s);
        let want: Vec<String> = s.lines().map(str::to_string).collect();
        assert_eq!(got, want, "{s:?}");
    }
    for s in ["", "  a  b\tc\n", "one", "\u{3000}x y"] {
        let got = words_of(s);
        let want: Vec<String> = s.split_whitespace().map(str::to_string).collect();
        assert_eq!(got, want, "{s:?}");
    }
}

#[test]
fn meminfo_and_df() {
    let report = "MemTotal:       16318508 kB\nMemFree:         1234 kB\nMemAvailable:    8000000 kB\n";
    assert_eq!(meminfo_kb(report, "MemTotal:"), 16318508);
    assert_eq!(meminfo_kb(report, "MemAvailable:"), 8000000);
    assert_eq!(meminfo_kb(report, "Swap:"), 0);
    assert_eq!(mem_used_kb(16318508, 8000000), 8318508);
    assert_eq!(mem_used_kb(1, 2), 0);
    assert_eq!(df_kb(" Used  1K-blocks\n123456 987654\n"), (123456, 987654));
    assert_eq!(df_kb("header only\n"), (0, 0));
}

#[test]
fn chat_round_trip() {
    let mut p = HelpPanel::new();
    assert!(!p.can_send());
    assert!(p.submit("http://127.0.0.1:1234/v1").is_none());
    p.set_input("How do I install a theme?".to_string());
    assert!(p.can_send());
    let send = p.submit("http://127.0.0.1:1234/v1").unwrap();
    assert_eq!(send.url, "http://127.0.0.1:1234/v1/chat/completions");
    assert_eq!(send.messages.len(), 1);
    assert_eq!(send.messages[0].role, "user");
    assert!(p.thinking);
    assert_eq!(p.input, "");
    p.set_input("again".to_string());
    assert!(p.submit("x").is_none());
    p.receive("Open the Store.".to_string());
    assert!(!p.thinking);
    assert_eq!(p.messages.len(), 2);
    assert_eq!(p.messages[1].role, "assistant");
    assert_eq!(p.messages[1].content, "Open the Store.");
    p.select_tab(HelpTab::Shortcuts);
    assert_eq!(p.tab_class(HelpTab::Shortcuts), "fsn-help-sidebar__tab fsn-help-sidebar__tab--active");
    assert_eq!(p.tab_class(HelpTab::Topics), "fsn-help-sidebar__tab");
}

#[test]
fn chat_reply_texts() {
    assert_eq!(chat_reply_text(Ok(Some("hi".into()))), "hi");
    assert_eq!(chat_reply_text(Ok(None)), "(no response)");
    assert_eq!(chat_reply_text(Err(ChatFailure::Request("timeout".into()))), "Request failed: timeout");
    assert_eq!(chat_reply_text(Err(ChatFailure::Parse("eof".into()))), "Parse error: eof");
}

#[test]
fn sidebar_shortcut_labels() {
    let actions = register_actions(&KeyText);
    let cfg = ShortcutsConfig::default();
    assert_eq!(shortcut_label(&actions[0], &cfg), "Ctrl+,");
    assert_eq!(shortcut_label(&actions[4], &cfg), "—");
}

#[test]
fn sysinfo_cells() {
    assert_eq!(fs_desktop::sysinfo::cell_value(""), "—");
    assert_eq!(fs_desktop::sysinfo::cell_value("host1"), "host1");
    assert_eq!(fs_desktop::sysinfo::used_of_total("1.2G", "7.8G"), "1.2G / 7.8G");
}
