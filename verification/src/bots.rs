//! Messaging bots: the kinds of bot and the channels a bot posts to.
use vstd::prelude::*;
use crate::text::owned;

verus! {

/// What a messaging bot does.
#[derive(Clone, Copy, Debug, PartialEq, Eq, Structural)]
pub enum BotKind {
    Broadcast,
    Gatekeeper,
    Monitor,
    Digest,
    UserBot,
}

/// The display label of a bot kind.
pub open spec fn bot_label(k: BotKind) -> Seq<char> {
    match k {
        BotKind::Broadcast => "Broadcast"@,
        BotKind::Gatekeeper => "Gatekeeper"@,
        BotKind::Monitor => "Monitor"@,
        BotKind::Digest => "Digest"@,
        BotKind::UserBot => "Personal Assistant"@,
    }
}

/// The icon of a bot kind.
pub open spec fn bot_icon(k: BotKind) -> Seq<char> {
    match k {
        BotKind::Broadcast => "📢"@,
        BotKind::Gatekeeper => "🔒"@,
        BotKind::Monitor => "📊"@,
        BotKind::Digest => "📋"@,
        BotKind::UserBot => "🤖"@,
    }
}

impl BotKind {
    /// The display label (`UserBot` is shown as "Personal Assistant").
    pub fn label(&self) -> (s: &'static str)
        ensures
            s@ == bot_label(*self),
    {
        match self {
            BotKind::Broadcast => "Broadcast",
            BotKind::Gatekeeper => "Gatekeeper",
            BotKind::Monitor => "Monitor",
            BotKind::Digest => "Digest",
            BotKind::UserBot => "Personal Assistant",
        }
    }

    /// The icon shown next to the bot.
    pub fn icon(&self) -> (s: &'static str)
        ensures
            s@ == bot_icon(*self),
    {
        match self {
            BotKind::Broadcast => "📢",
            BotKind::Gatekeeper => "🔒",
            BotKind::Monitor => "📊",
            BotKind::Digest => "📋",
            BotKind::UserBot => "🤖",
        }
    }
}

/// A channel a bot posts to.
#[derive(Clone, Debug)]
pub struct ChannelTarget {
    pub platform: String,
    pub name: String,
    pub id: String,
    pub enabled: bool,
}

/// The views of channel targets: (platform, name, id, enabled).
pub open spec fn target_views(v: Seq<ChannelTarget>) -> Seq<(Seq<char>, Seq<char>, Seq<char>, bool)> {
    v.map_values(|t: ChannelTarget| (t.platform@, t.name@, t.id@, t.enabled))
}

/// A point in time: seconds since the Unix epoch and the nanoseconds within the second.
#[derive(Clone, Copy, Debug, PartialEq, Eq, Structural)]
pub struct Timestamp {
    pub secs: i64,
    pub nanos: u32,
}

/// The current time as chrono's `Utc::now()` reads it.
///
/// The result depends on the clock; nothing is stated of it beyond its range. `Utc::now`
/// takes the system time as a duration since the Unix epoch (it panics when the clock
/// reads earlier than 1970) and builds the time from its whole seconds and its
/// sub-second nanoseconds, so the seconds are not negative and the nanoseconds stay
/// below one second.
#[verifier::external_body]
pub fn utc_now() -> (t: Timestamp)
    ensures
        t.nanos < 1_000_000_000,
        t.secs >= 0,
{
    let now = chrono::Utc::now();
    Timestamp { secs: now.timestamp(), nanos: now.timestamp_subsec_nanos() }
}

/// A message a bot broadcast, when, and to how many targets.
#[derive(Clone, Debug)]
pub struct BroadcastRecord {
    pub message: String,
    pub sent_at: Timestamp,
    pub target_count: usize,
}

/// A join request waiting for a gatekeeper's approval.
#[derive(Clone, Debug)]
pub struct PendingApproval {
    pub id: String,
    pub username: String,
    pub platform: String,
    pub waiting_since: Timestamp,
}

/// A messaging bot and its channels.
#[derive(Clone, Debug)]
pub struct MessagingBot {
    pub id: String,
    pub name: String,
    pub kind: BotKind,
    pub enabled: bool,
    pub targets: Vec<ChannelTarget>,
    pub recent_broadcasts: Vec<BroadcastRecord>,
    pub pending_approvals: Vec<PendingApproval>,
}

/// `t` moved back by `secs` seconds.
pub open spec fn earlier(t: Timestamp, secs: int) -> Timestamp {
    Timestamp { secs: (t.secs - secs) as i64, nanos: t.nanos }
}

/// The example bots dated relative to `now` (see [`MessagingBot::demo_bots`]).
pub open spec fn is_demo(bots: Seq<MessagingBot>, now: Timestamp) -> bool {
    &&& bots.len() == 2
    &&& ({
        let b = bots[0];
        &&& b.id@ == "broadcast"@ && b.name@ == "Broadcast Bot"@
        &&& b.kind == BotKind::Broadcast && b.enabled
        &&& target_views(b.targets@) == seq![
            ("Telegram"@, "FreeSynergy Community"@, "-100123"@, true),
            ("Matrix"@, "#general:example.com"@, "!abc:example.com"@, true),
        ]
        &&& b.recent_broadcasts@.len() == 1
        &&& b.recent_broadcasts@[0].message@ == "Neues Update verfügbar…"@
        &&& b.recent_broadcasts@[0].sent_at == earlier(now, 7200)
        &&& b.recent_broadcasts@[0].target_count == 4
        &&& b.pending_approvals@.len() == 0
        })
    &&& ({
        let g = bots[1];
        &&& g.id@ == "gatekeeper"@ && g.name@ == "Gatekeeper Bot"@
        &&& g.kind == BotKind::Gatekeeper && g.enabled
        &&& target_views(g.targets@) == seq![
            ("Telegram"@, "FreeSynergy Community"@, "-100123"@, true),
        ]
        &&& g.recent_broadcasts@.len() == 0
        &&& g.pending_approvals@.len() == 2
        &&& g.pending_approvals@[0].id@ == "1"@ && g.pending_approvals@[0].username@ == "@alice_t"@
            && g.pending_approvals@[0].platform@ == "Telegram"@
            && g.pending_approvals@[0].waiting_since == earlier(now, 120)
        &&& g.pending_approvals@[1].id@ == "2"@ && g.pending_approvals@[1].username@ == "@bob_99"@
            && g.pending_approvals@[1].platform@ == "Telegram"@
            && g.pending_approvals@[1].waiting_since == earlier(now, 240)
        })
}

fn target(platform: &str, name: &str, id: &str) -> (t: ChannelTarget)
    ensures
        t.platform@ == platform@,
        t.name@ == name@,
        t.id@ == id@,
        t.enabled,
{
    ChannelTarget { platform: owned(platform), name: owned(name), id: owned(id), enabled: true }
}

impl MessagingBot {
    /// The example bots shown before any are configured, dated relative to `now`: a
    /// broadcast bot posting to a Telegram group and a Matrix room, with one broadcast
    /// two hours ago; and a gatekeeper for the Telegram group with two people waiting for
    /// two and four minutes.
    pub fn demo_bots(now: Timestamp) -> (bots: Vec<MessagingBot>)
        requires
            now.secs >= i64::MIN + 7200,
        ensures
            is_demo(bots@, now),
    {
        let mut bt: Vec<ChannelTarget> = Vec::new();
        bt.push(target("Telegram", "FreeSynergy Community", "-100123"));
        bt.push(target("Matrix", "#general:example.com", "!abc:example.com"));
        assert(target_views(bt@) =~= seq![
            ("Telegram"@, "FreeSynergy Community"@, "-100123"@, true),
            ("Matrix"@, "#general:example.com"@, "!abc:example.com"@, true),
        ]);
        let mut recent: Vec<BroadcastRecord> = Vec::new();
        recent.push(
            BroadcastRecord {
                message: owned("Neues Update verfügbar…"),
                sent_at: Timestamp { secs: now.secs - 7200, nanos: now.nanos },
                target_count: 4,
            },
        );
        let broadcast = MessagingBot {
            id: owned("broadcast"),
            name: owned("Broadcast Bot"),
            kind: BotKind::Broadcast,
            enabled: true,
            targets: bt,
            recent_broadcasts: recent,
            pending_approvals: Vec::new(),
        };
        let mut gt: Vec<ChannelTarget> = Vec::new();
        gt.push(target("Telegram", "FreeSynergy Community", "-100123"));
        assert(target_views(gt@) =~= seq![("Telegram"@, "FreeSynergy Community"@, "-100123"@, true)]);
        let mut pending: Vec<PendingApproval> = Vec::new();
        pending.push(
            PendingApproval {
                id: owned("1"),
                username: owned("@alice_t"),
                platform: owned("Telegram"),
                waiting_since: Timestamp { secs: now.secs - 120, nanos: now.nanos },
            },
        );
        pending.push(
            PendingApproval {
                id: owned("2"),
                username: owned("@bob_99"),
                platform: owned("Telegram"),
                waiting_since: Timestamp { secs: now.secs - 240, nanos: now.nanos },
            },
        );
        let gatekeeper = MessagingBot {
            id: owned("gatekeeper"),
            name: owned("Gatekeeper Bot"),
            kind: BotKind::Gatekeeper,
            enabled: true,
            targets: gt,
            recent_broadcasts: Vec::new(),
            pending_approvals: pending,
        };
        let mut bots: Vec<MessagingBot> = Vec::new();
        bots.push(broadcast);
        bots.push(gatekeeper);
        bots
    }

    /// The example bots dated from the current time. Every time the clock can read lies far
    /// enough after the earliest `i64` second to go two hours back from, so the bots are
    /// always given.
    pub fn demo_bots_now() -> (bots: Option<Vec<MessagingBot>>)
        ensures
            bots is Some,
            exists|t: Timestamp| #[trigger] is_demo(bots->0@, t),
    {
        let now = utc_now();
        if now.secs >= i64::MIN + 7200 {
            let v = Self::demo_bots(now);
            let r = Some(v);
            assert(is_demo(r->0@, now));
            r
        } else {
            None
        }
    }
}

/// The bots to show: the configured ones, or the example bots when none are configured.
pub fn bots_or_demo(configured: Vec<MessagingBot>, now: Timestamp) -> (bots: Vec<MessagingBot>)
    requires
        now.secs >= i64::MIN + 7200,
    ensures
        configured@.len() > 0 ==> bots@ == configured@,
        configured@.len() == 0 ==> is_demo(bots@, now),
{
    if configured.len() == 0 {
        MessagingBot::demo_bots(now)
    } else {
        configured
    }
}

/// The status line of a bot's detail view.
pub open spec fn bot_status_text(enabled: bool) -> Seq<char> {
    if enabled {
        "● Running"@
    } else {
        "○ Stopped"@
    }
}

/// The status line shown under a bot's name.
pub fn bot_status_label(enabled: bool) -> (s: &'static str)
    ensures
        s@ == bot_status_text(enabled),
{
    if enabled {
        "● Running"
    } else {
        "○ Stopped"
    }
}

/// The usage panel a bot's detail view shows.
#[derive(Clone, Copy, Debug, PartialEq, Eq, Structural)]
pub enum BotPanel {
    /// Compose and review broadcasts.
    Broadcast,
    /// Approve or reject join requests.
    Gatekeeper,
    /// No usage interface for this kind yet.
    Unavailable,
}

/// The panel for a bot kind: broadcast and gatekeeper bots have one, the others not yet.
pub fn bot_panel(kind: BotKind) -> (p: BotPanel)
    ensures
        p == match kind {
            BotKind::Broadcast => BotPanel::Broadcast,
            BotKind::Gatekeeper => BotPanel::Gatekeeper,
            _ => BotPanel::Unavailable,
        },
{
    match kind {
        BotKind::Broadcast => BotPanel::Broadcast,
        BotKind::Gatekeeper => BotPanel::Gatekeeper,
        _ => BotPanel::Unavailable,
    }
}

/// The bot the selection names, if it names an entry of `bots`.
pub open spec fn selected_of(bots: Seq<MessagingBot>, selected: Option<usize>) -> Option<MessagingBot> {
    match selected {
        Some(i) => if i < bots.len() {
            Some(bots[i as int])
        } else {
            None
        },
        None => None,
    }
}

/// The bot manager: the bots and the entry selected in its list.
pub struct BotManager {
    pub bots: Vec<MessagingBot>,
    pub selected: Option<usize>,
}

impl BotManager {
    /// The manager for the loaded bots, with the first entry selected.
    pub fn new(bots: Vec<MessagingBot>) -> (m: Self)
        ensures
            m.bots == bots,
            m.selected == Some(0usize),
    {
        BotManager { bots, selected: Some(0) }
    }

    /// Selects the entry at `idx`.
    pub fn select(&mut self, idx: usize)
        ensures
            final(self).selected == Some(idx),
            final(self).bots == old(self).bots,
    {
        self.selected = Some(idx);
    }

    /// The selected bot, if the selection names an entry of the list.
    pub fn selected_bot(&self) -> (b: Option<&MessagingBot>)
        ensures
            match selected_of(self.bots@, self.selected) {
                Some(x) => b matches Some(y) && *y == x,
                None => b is None,
            },
    {
        match self.selected {
            Some(i) => {
                if i < self.bots.len() {
                    Some(&self.bots[i])
                } else {
                    None
                }
            },
            None => None,
        }
    }

    /// Puts an edited bot in place of the selected one; `true` when the list changed and
    /// is to be saved. Without a selected entry nothing changes.
    pub fn replace_selected(&mut self, updated: MessagingBot) -> (changed: bool)
        ensures
            final(self).selected == old(self).selected,
            match old(self).selected {
                Some(i) => if i < old(self).bots@.len() {
                    changed && final(self).bots@ == old(self).bots@.update(i as int, updated)
                } else {
                    !changed && final(self).bots@ == old(self).bots@
                },
                None => !changed && final(self).bots@ == old(self).bots@,
            },
    {
        match self.selected {
            Some(i) => {
                if i < self.bots.len() {
                    self.bots.set(i, updated);
                    true
                } else {
                    false
                }
            },
            None => false,
        }
    }
}

/// After an edited bot replaced the selected entry, the selection shows the edited bot.
pub proof fn law_replaced_bot_is_shown(bots: Seq<MessagingBot>, i: usize, updated: MessagingBot)
    requires
        i < bots.len(),
    ensures
        selected_of(bots.update(i as int, updated), Some(i)) == Some(updated),
{
}

} // verus!
