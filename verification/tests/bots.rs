use fs_desktop::bots::{bots_or_demo, BotKind, MessagingBot, Timestamp};

#[test]
fn bot_kind_labels_and_icons() {
    assert_eq!(BotKind::Broadcast.label(), "Broadcast");
    assert_eq!(BotKind::Gatekeeper.label(), "Gatekeeper");
    assert_eq!(BotKind::Monitor.label(), "Monitor");
    assert_eq!(BotKind::Digest.label(), "Digest");
    assert_eq!(BotKind::UserBot.label(), "Personal Assistant");
    assert_eq!(BotKind::Broadcast.icon(), "📢");
    assert_eq!(BotKind::UserBot.icon(), "🤖");
}

#[test]
fn demo_bots_are_dated_from_now() {
    let now = Timestamp { secs: 1_700_000_000, nanos: 5 };
    let bots = MessagingBot::demo_bots(now);
    assert_eq!(bots.len(), 2);
    let b = &bots[0];
    assert_eq!(b.id, "broadcast");
    assert_eq!(b.kind, BotKind::Broadcast);
    assert_eq!(b.targets.len(), 2);
    assert_eq!(b.targets[1].platform, "Matrix");
    assert_eq!(b.recent_broadcasts[0].sent_at, Timestamp { secs: 1_700_000_000 - 7200, nanos: 5 });
    assert_eq!(b.recent_broadcasts[0].target_count, 4);
    let g = &bots[1];
    assert_eq!(g.kind, BotKind::Gatekeeper);
    assert_eq!(g.pending_approvals.len(), 2);
    assert_eq!(g.pending_approvals[0].username, "@alice_t");
    assert_eq!(g.pending_approvals[0].waiting_since.secs, 1_700_000_000 - 120);
    assert_eq!(g.pending_approvals[1].waiting_since.secs, 1_700_000_000 - 240);
}

#[test]
fn demo_bots_now_reads_the_clock() {
    let bots = MessagingBot::demo_bots_now().expect("clock after 1970");
    assert_eq!(bots.len(), 2);
    assert!(bots[0].recent_broadcasts[0].sent_at.secs > 1_600_000_000);
}

#[test]
fn configured_bots_are_kept() {
    let now = Timestamp { secs: 10_000, nanos: 0 };
    let demo = bots_or_demo(Vec::new(), now);
    assert_eq!(demo.len(), 2);
    let mut one = MessagingBot::demo_bots(now);
    one.truncate(1);
    one[0].name = "Mine".to_string();
    let kept = bots_or_demo(one, now);
    assert_eq!(kept.len(), 1);
    assert_eq!(kept[0].name, "Mine");
}

use fs_desktop::bots::{bot_panel, bot_status_label, BotManager, BotPanel};

#[test]
fn bot_manager_selection_and_update() {
    let now = Timestamp { secs: 10_000, nanos: 0 };
    let mut m = BotManager::new(MessagingBot::demo_bots(now));
    assert_eq!(m.selected, Some(0));
    assert_eq!(m.selected_bot().unwrap().id, "broadcast");
    m.select(1);
    let mut g = m.selected_bot().unwrap().clone();
    assert_eq!(g.id, "gatekeeper");
    g.enabled = false;
    assert!(m.replace_selected(g));
    assert!(!m.selected_bot().unwrap().enabled);
    assert!(m.bots[0].enabled);
    m.select(9);
    assert!(m.selected_bot().is_none());
    let again = MessagingBot::demo_bots(now).remove(0);
    assert!(!m.replace_selected(again));
    assert_eq!(m.bots.len(), 2);
    let empty = BotManager::new(Vec::new());
    assert!(empty.selected_bot().is_none());
}

#[test]
fn bot_detail_texts() {
    assert_eq!(bot_status_label(true), "● Running");
    assert_eq!(bot_status_label(false), "○ Stopped");
    assert_eq!(bot_panel(BotKind::Broadcast), BotPanel::Broadcast);
    assert_eq!(bot_panel(BotKind::Gatekeeper), BotPanel::Gatekeeper);
    assert_eq!(bot_panel(BotKind::Digest), BotPanel::Unavailable);
}
