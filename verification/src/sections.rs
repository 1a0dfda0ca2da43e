//! Sidebar sections of the Settings, Managers and Help apps: their routing ids, labels
//! and icons, the lookup from an id, and which sections the sidebar lists.
use vstd::prelude::*;
use crate::header::Translate;
use crate::text::{contains_seq, lowercase, str_contains, str_eq, to_lowercase};

verus! {

// ── Settings ──────────────────────────────────────────────────────────────────

/// A section of the Settings app.
#[derive(Clone, Copy, Debug, PartialEq, Eq, Structural)]
pub enum SettingsSection {
    Appearance,
    Language,
    ServiceRoles,
    Accounts,
    Desktop,
    Browser,
    Shortcuts,
    Packages,
}

/// The stable routing id of a settings section (never translated).
pub open spec fn settings_id(s: SettingsSection) -> Seq<char> {
    match s {
        SettingsSection::Appearance => "appearance"@,
        SettingsSection::Language => "language"@,
        SettingsSection::ServiceRoles => "service_roles"@,
        SettingsSection::Accounts => "accounts"@,
        SettingsSection::Desktop => "desktop"@,
        SettingsSection::Browser => "browser"@,
        SettingsSection::Shortcuts => "shortcuts"@,
        SettingsSection::Packages => "packages"@,
    }
}

/// The settings section with routing id `id`, if any.
pub open spec fn settings_from_id(id: Seq<char>) -> Option<SettingsSection> {
    if id == "appearance"@ {
        Some(SettingsSection::Appearance)
    } else if id == "language"@ {
        Some(SettingsSection::Language)
    } else if id == "service_roles"@ {
        Some(SettingsSection::ServiceRoles)
    } else if id == "accounts"@ {
        Some(SettingsSection::Accounts)
    } else if id == "desktop"@ {
        Some(SettingsSection::Desktop)
    } else if id == "browser"@ {
        Some(SettingsSection::Browser)
    } else if id == "shortcuts"@ {
        Some(SettingsSection::Shortcuts)
    } else if id == "packages"@ {
        Some(SettingsSection::Packages)
    } else {
        None
    }
}

/// The i18n key of a settings section's label.
pub open spec fn settings_label_key(s: SettingsSection) -> Seq<char> {
    match s {
        SettingsSection::Appearance => "settings.section.appearance"@,
        SettingsSection::Language => "settings.section.language"@,
        SettingsSection::ServiceRoles => "settings.section.roles"@,
        SettingsSection::Accounts => "settings.section.accounts"@,
        SettingsSection::Desktop => "settings.section.desktop"@,
        SettingsSection::Browser => "settings.section.browser"@,
        SettingsSection::Shortcuts => "settings.section.shortcuts"@,
        SettingsSection::Packages => "settings.section.packages"@,
    }
}

/// The icon of a settings section.
pub open spec fn settings_icon(s: SettingsSection) -> Seq<char> {
    match s {
        SettingsSection::Appearance => "🎨"@,
        SettingsSection::Language => "🌐"@,
        SettingsSection::ServiceRoles => "🔗"@,
        SettingsSection::Accounts => "👤"@,
        SettingsSection::Desktop => "🖥"@,
        SettingsSection::Browser => "🌍"@,
        SettingsSection::Shortcuts => "⌨"@,
        SettingsSection::Packages => "📦"@,
    }
}

proof fn reveal_settings_ids()
    ensures
        "appearance"@ =~= seq!['a', 'p', 'p', 'e', 'a', 'r', 'a', 'n', 'c', 'e'],
        "language"@ =~= seq!['l', 'a', 'n', 'g', 'u', 'a', 'g', 'e'],
        "service_roles"@ =~= seq!['s', 'e', 'r', 'v', 'i', 'c', 'e', '_', 'r', 'o', 'l', 'e', 's'],
        "accounts"@ =~= seq!['a', 'c', 'c', 'o', 'u', 'n', 't', 's'],
        "desktop"@ =~= seq!['d', 'e', 's', 'k', 't', 'o', 'p'],
        "browser"@ =~= seq!['b', 'r', 'o', 'w', 's', 'e', 'r'],
        "shortcuts"@ =~= seq!['s', 'h', 'o', 'r', 't', 'c', 'u', 't', 's'],
        "packages"@ =~= seq!['p', 'a', 'c', 'k', 'a', 'g', 'e', 's'],
{
    reveal_strlit("appearance");
    reveal_strlit("language");
    reveal_strlit("service_roles");
    reveal_strlit("accounts");
    reveal_strlit("desktop");
    reveal_strlit("browser");
    reveal_strlit("shortcuts");
    reveal_strlit("packages");
}

impl SettingsSection {
    /// The stable routing id.
    pub fn id(&self) -> (s: &'static str)
        ensures
            s@ == settings_id(*self),
    {
        match self {
            SettingsSection::Appearance => "appearance",
            SettingsSection::Language => "language",
            SettingsSection::ServiceRoles => "service_roles",
            SettingsSection::Accounts => "accounts",
            SettingsSection::Desktop => "desktop",
            SettingsSection::Browser => "browser",
            SettingsSection::Shortcuts => "shortcuts",
            SettingsSection::Packages => "packages",
        }
    }

    /// The translated display label.
    pub fn label<T: Translate>(&self, tr: &T) -> (l: String)
        ensures
            l@ == tr.translation(settings_label_key(*self)),
    {
        let key = match self {
            SettingsSection::Appearance => "settings.section.appearance",
            SettingsSection::Language => "settings.section.language",
            SettingsSection::ServiceRoles => "settings.section.roles",
            SettingsSection::Accounts => "settings.section.accounts",
            SettingsSection::Desktop => "settings.section.desktop",
            SettingsSection::Browser => "settings.section.browser",
            SettingsSection::Shortcuts => "settings.section.shortcuts",
            SettingsSection::Packages => "settings.section.packages",
        };
        tr.t(key)
    }

    /// The icon.
    pub fn icon(&self) -> (s: &'static str)
        ensures
            s@ == settings_icon(*self),
    {
        match self {
            SettingsSection::Appearance => "🎨",
            SettingsSection::Language => "🌐",
            SettingsSection::ServiceRoles => "🔗",
            SettingsSection::Accounts => "👤",
            SettingsSection::Desktop => "🖥",
            SettingsSection::Browser => "🌍",
            SettingsSection::Shortcuts => "⌨",
            SettingsSection::Packages => "📦",
        }
    }

    /// The section with routing id `id`, if any.
    pub fn from_id(id: &str) -> (s: Option<SettingsSection>)
        ensures
            s == settings_from_id(id@),
    {
        if str_eq(id, "appearance") {
            Some(SettingsSection::Appearance)
        } else if str_eq(id, "language") {
            Some(SettingsSection::Language)
        } else if str_eq(id, "service_roles") {
            Some(SettingsSection::ServiceRoles)
        } else if str_eq(id, "accounts") {
            Some(SettingsSection::Accounts)
        } else if str_eq(id, "desktop") {
            Some(SettingsSection::Desktop)
        } else if str_eq(id, "browser") {
            Some(SettingsSection::Browser)
        } else if str_eq(id, "shortcuts") {
            Some(SettingsSection::Shortcuts)
        } else if str_eq(id, "packages") {
            Some(SettingsSection::Packages)
        } else {
            None
        }
    }
}

/// Every settings section is found again by its routing id, and an id that finds a
/// section is that section's id.
pub proof fn law_settings_id_round_trip(s: SettingsSection, id: Seq<char>)
    ensures
        settings_from_id(settings_id(s)) == Some(s),
        settings_from_id(id) matches Some(t) ==> settings_id(t) == id,
{
    reveal_settings_ids();
}

/// The sections the Settings sidebar lists: the standard ones, and Packages only when
/// packages with settings are installed.
pub open spec fn spec_settings_sidebar(has_packages: bool) -> Seq<SettingsSection> {
    let standard = seq![
        SettingsSection::Appearance,
        SettingsSection::Language,
        SettingsSection::ServiceRoles,
        SettingsSection::Accounts,
        SettingsSection::Desktop,
        SettingsSection::Browser,
        SettingsSection::Shortcuts,
    ];
    if has_packages {
        standard.push(SettingsSection::Packages)
    } else {
        standard
    }
}

/// The sections the Settings sidebar lists.
pub fn settings_sidebar(has_packages: bool) -> (v: Vec<SettingsSection>)
    ensures
        v@ == spec_settings_sidebar(has_packages),
{
    let mut v = vec![
        SettingsSection::Appearance,
        SettingsSection::Language,
        SettingsSection::ServiceRoles,
        SettingsSection::Accounts,
        SettingsSection::Desktop,
        SettingsSection::Browser,
        SettingsSection::Shortcuts,
    ];
    if has_packages {
        v.push(SettingsSection::Packages);
    }
    assert(v@ =~= spec_settings_sidebar(has_packages));
    v
}

// ── Managers ──────────────────────────────────────────────────────────────────

/// A section of the Managers app.
#[derive(Clone, Copy, Debug, PartialEq, Eq, Structural)]
pub enum ManagerSection {
    Language,
    Theme,
    Icons,
    ContainerApps,
    Bots,
}

/// The stable routing id of a manager section.
pub open spec fn manager_id(s: ManagerSection) -> Seq<char> {
    match s {
        ManagerSection::Language => "language"@,
        ManagerSection::Theme => "theme"@,
        ManagerSection::Icons => "icons"@,
        ManagerSection::ContainerApps => "container_apps"@,
        ManagerSection::Bots => "bots"@,
    }
}

/// The manager section with routing id `id`, if any.
pub open spec fn manager_from_id(id: Seq<char>) -> Option<ManagerSection> {
    if id == "language"@ {
        Some(ManagerSection::Language)
    } else if id == "theme"@ {
        Some(ManagerSection::Theme)
    } else if id == "icons"@ {
        Some(ManagerSection::Icons)
    } else if id == "container_apps"@ {
        Some(ManagerSection::ContainerApps)
    } else if id == "bots"@ {
        Some(ManagerSection::Bots)
    } else {
        None
    }
}

/// The i18n key of a manager section's label.
pub open spec fn manager_label_key(s: ManagerSection) -> Seq<char> {
    match s {
        ManagerSection::Language => "managers.section.language"@,
        ManagerSection::Theme => "managers.section.theme"@,
        ManagerSection::Icons => "managers.section.icons"@,
        ManagerSection::ContainerApps => "managers.section.container_apps"@,
        ManagerSection::Bots => "managers.section.bots"@,
    }
}

/// The icon of a manager section.
pub open spec fn manager_icon(s: ManagerSection) -> Seq<char> {
    match s {
        ManagerSection::Language => "🌐"@,
        ManagerSection::Theme => "🎨"@,
        ManagerSection::Icons => "🖼"@,
        ManagerSection::ContainerApps => "📦"@,
        ManagerSection::Bots => "🤖"@,
    }
}

proof fn reveal_manager_ids()
    ensures
        "language"@ =~= seq!['l', 'a', 'n', 'g', 'u', 'a', 'g', 'e'],
        "theme"@ =~= seq!['t', 'h', 'e', 'm', 'e'],
        "icons"@ =~= seq!['i', 'c', 'o', 'n', 's'],
        "container_apps"@ =~= seq![
            'c', 'o', 'n', 't', 'a', 'i', 'n', 'e', 'r', '_', 'a', 'p', 'p', 's',
        ],
        "bots"@ =~= seq!['b', 'o', 't', 's'],
{
    reveal_strlit("language");
    reveal_strlit("theme");
    reveal_strlit("icons");
    reveal_strlit("container_apps");
    reveal_strlit("bots");
}

impl ManagerSection {
    /// The stable routing id.
    pub fn id(&self) -> (s: &'static str)
        ensures
            s@ == manager_id(*self),
    {
        match self {
            ManagerSection::Language => "language",
            ManagerSection::Theme => "theme",
            ManagerSection::Icons => "icons",
            ManagerSection::ContainerApps => "container_apps",
            ManagerSection::Bots => "bots",
        }
    }

    /// The translated display label.
    pub fn label<T: Translate>(&self, tr: &T) -> (l: String)
        ensures
            l@ == tr.translation(manager_label_key(*self)),
    {
        let key = match self {
            ManagerSection::Language => "managers.section.language",
            ManagerSection::Theme => "managers.section.theme",
            ManagerSection::Icons => "managers.section.icons",
            ManagerSection::ContainerApps => "managers.section.container_apps",
            ManagerSection::Bots => "managers.section.bots",
        };
        tr.t(key)
    }

    /// The icon.
    pub fn icon(&self) -> (s: &'static str)
        ensures
            s@ == manager_icon(*self),
    {
        match self {
            ManagerSection::Language => "🌐",
            ManagerSection::Theme => "🎨",
            ManagerSection::Icons => "🖼",
            ManagerSection::ContainerApps => "📦",
            ManagerSection::Bots => "🤖",
        }
    }

    /// The section with routing id `id`, if any.
    pub fn from_id(id: &str) -> (s: Option<ManagerSection>)
        ensures
            s == manager_from_id(id@),
    {
        if str_eq(id, "language") {
            Some(ManagerSection::Language)
        } else if str_eq(id, "theme") {
            Some(ManagerSection::Theme)
        } else if str_eq(id, "icons") {
            Some(ManagerSection::Icons)
        } else if str_eq(id, "container_apps") {
            Some(ManagerSection::ContainerApps)
        } else if str_eq(id, "bots") {
            Some(ManagerSection::Bots)
        } else {
            None
        }
    }

    /// All manager sections, in sidebar order.
    pub fn all() -> (v: Vec<ManagerSection>)
        ensures
            v@ == seq![
                ManagerSection::Language,
                ManagerSection::Theme,
                ManagerSection::Icons,
                ManagerSection::ContainerApps,
                ManagerSection::Bots,
            ],
    {
        let v = vec![
            ManagerSection::Language,
            ManagerSection::Theme,
            ManagerSection::Icons,
            ManagerSection::ContainerApps,
            ManagerSection::Bots,
        ];
        assert(v@ =~= seq![
            ManagerSection::Language,
            ManagerSection::Theme,
            ManagerSection::Icons,
            ManagerSection::ContainerApps,
            ManagerSection::Bots,
        ]);
        v
    }
}

/// Every manager section is found again by its routing id, and an id that finds a
/// section is that section's id.
pub proof fn law_manager_id_round_trip(s: ManagerSection, id: Seq<char>)
    ensures
        manager_from_id(manager_id(s)) == Some(s),
        manager_from_id(id) matches Some(t) ==> manager_id(t) == id,
{
    reveal_manager_ids();
}

// ── Help ──────────────────────────────────────────────────────────────────────

/// A section of the Help app.
#[derive(Clone, Copy, Debug, PartialEq, Eq, Structural)]
pub enum HelpSection {
    Topics,
    Shortcuts,
}

/// The routing id of a help section.
pub open spec fn help_section_id(s: HelpSection) -> Seq<char> {
    match s {
        HelpSection::Topics => "topics"@,
        HelpSection::Shortcuts => "shortcuts"@,
    }
}

/// The help section with routing id `id`, if any.
pub open spec fn help_section_from_id(id: Seq<char>) -> Option<HelpSection> {
    if id == "topics"@ {
        Some(HelpSection::Topics)
    } else if id == "shortcuts"@ {
        Some(HelpSection::Shortcuts)
    } else {
        None
    }
}

impl HelpSection {
    /// The routing id.
    pub fn id(&self) -> (s: &'static str)
        ensures
            s@ == help_section_id(*self),
    {
        match self {
            HelpSection::Topics => "topics",
            HelpSection::Shortcuts => "shortcuts",
        }
    }

    /// The label.
    pub fn label(&self) -> (s: &'static str)
        ensures
            s@ == (match *self {
                HelpSection::Topics => "Topics"@,
                HelpSection::Shortcuts => "Shortcuts"@,
            }),
    {
        match self {
            HelpSection::Topics => "Topics",
            HelpSection::Shortcuts => "Shortcuts",
        }
    }

    /// The icon.
    pub fn icon(&self) -> (s: &'static str)
        ensures
            s@ == (match *self {
                HelpSection::Topics => "📚"@,
                HelpSection::Shortcuts => "⌨"@,
            }),
    {
        match self {
            HelpSection::Topics => "📚",
            HelpSection::Shortcuts => "⌨",
        }
    }

    /// The section with routing id `id`, if any.
    pub fn from_id(id: &str) -> (s: Option<HelpSection>)
        ensures
            s == help_section_from_id(id@),
    {
        if str_eq(id, "topics") {
            Some(HelpSection::Topics)
        } else if str_eq(id, "shortcuts") {
            Some(HelpSection::Shortcuts)
        } else {
            None
        }
    }
}

/// Every help section is found again by its routing id, and an id that finds a section
/// is that section's id.
pub proof fn law_help_section_id_round_trip(s: HelpSection, id: Seq<char>)
    ensures
        help_section_from_id(help_section_id(s)) == Some(s),
        help_section_from_id(id) matches Some(t) ==> help_section_id(t) == id,
{
    reveal_strlit("topics");
    reveal_strlit("shortcuts");
    assert("topics"@ =~= seq!['t', 'o', 'p', 'i', 'c', 's']);
    assert("shortcuts"@ =~= seq!['s', 'h', 'o', 'r', 't', 'c', 'u', 't', 's']);
}

/// A help topic card.
#[derive(Debug, Clone, Copy)]
pub struct HelpTopic {
    pub id: &'static str,
    pub title: &'static str,
    pub summary: &'static str,
}

/// The help topics, in display order: (id, title, summary).
pub open spec fn spec_help_topics() -> Seq<(Seq<char>, Seq<char>, Seq<char>)> {
    seq![
        ("getting-started"@, "Getting Started"@, "Learn how to set up your first FreeSynergy.Node deployment."@),
        ("container-app"@, "Container"@, "Manage services, bots, and containers from the Container App view."@),
        ("store"@, "Module Store"@, "Browse, install, and update service modules from the store."@),
        ("studio"@, "Studio"@, "Create custom modules, plugins, and language packs."@),
        ("settings"@, "Settings"@, "Configure appearance, language, service roles, and AI connections."@),
        ("ai-assistant"@, "AI Assistant"@, "Use your local Ollama instance as an integrated AI helper."@),
        ("troubleshooting"@, "Troubleshooting"@, "Common issues and how to resolve them."@),
    ]
}

/// The help topics, in display order.
pub fn help_topics() -> (v: Vec<HelpTopic>)
    ensures
        v@.map_values(|t: HelpTopic| (t.id@, t.title@, t.summary@)) == spec_help_topics(),
{
    let v = vec![
        HelpTopic { id: "getting-started", title: "Getting Started", summary: "Learn how to set up your first FreeSynergy.Node deployment." },
        HelpTopic { id: "container-app", title: "Container", summary: "Manage services, bots, and containers from the Container App view." },
        HelpTopic { id: "store", title: "Module Store", summary: "Browse, install, and update service modules from the store." },
        HelpTopic { id: "studio", title: "Studio", summary: "Create custom modules, plugins, and language packs." },
        HelpTopic { id: "settings", title: "Settings", summary: "Configure appearance, language, service roles, and AI connections." },
        HelpTopic { id: "ai-assistant", title: "AI Assistant", summary: "Use your local Ollama instance as an integrated AI helper." },
        HelpTopic { id: "troubleshooting", title: "Troubleshooting", summary: "Common issues and how to resolve them." },
    ];
    assert(v@.map_values(|t: HelpTopic| (t.id@, t.title@, t.summary@)) =~= spec_help_topics());
    v
}

/// Whether a topic matches the lowercased search `q`: `q` is empty or occurs in the
/// lowercased title or summary.
pub open spec fn topic_matches(t: HelpTopic, q: Seq<char>) -> bool {
    q.len() == 0 || contains_seq(to_lowercase(t.title@), q) || contains_seq(to_lowercase(t.summary@), q)
}

/// The topics among `ts[..n]` that match, in order.
pub open spec fn matching_topics(ts: Seq<HelpTopic>, q: Seq<char>, n: int) -> Seq<HelpTopic>
    decreases n,
{
    if n <= 0 {
        Seq::empty()
    } else {
        let rest = matching_topics(ts, q, n - 1);
        if topic_matches(ts[n - 1], q) {
            rest.push(ts[n - 1])
        } else {
            rest
        }
    }
}

/// The topics shown for a search text: those whose title or summary contains it,
/// case-insensitively (all for an empty search), in order.
pub fn filter_topics(topics: &Vec<HelpTopic>, search: &str) -> (out: Vec<HelpTopic>)
    ensures
        out@ == matching_topics(topics@, to_lowercase(search@), topics@.len() as int),
{
    let q = lowercase(search);
    let mut out: Vec<HelpTopic> = Vec::new();
    let mut i: usize = 0;
    while i < topics.len()
        invariant
            i <= topics@.len(),
            q@ == to_lowercase(search@),
            out@ == matching_topics(topics@, q@, i as int),
        decreases topics@.len() - i,
    {
        let t = topics[i];
        let hit = q.as_str().unicode_len() == 0 || str_contains(lowercase(t.title).as_str(), q.as_str())
            || str_contains(lowercase(t.summary).as_str(), q.as_str());
        if hit {
            out.push(t);
        }
        i += 1;
    }
    out
}

proof fn lemma_matching_topics(ts: Seq<HelpTopic>, q: Seq<char>, n: int)
    requires
        0 <= n <= ts.len(),
    ensures
        forall|i: int| 0 <= i < n && topic_matches(ts[i], q) ==> matching_topics(ts, q, n).contains(#[trigger] ts[i]),
        forall|x: HelpTopic| #[trigger] matching_topics(ts, q, n).contains(x) ==> ts.contains(x)
            && topic_matches(x, q),
    decreases n,
{
    if n > 0 {
        lemma_matching_topics(ts, q, n - 1);
        let m = matching_topics(ts, q, n - 1);
        let r = matching_topics(ts, q, n);
        assert forall|i: int| 0 <= i < n && topic_matches(ts[i], q) implies r.contains(#[trigger] ts[i]) by {
            if i < n - 1 {
                assert(m.contains(ts[i]));
                let j = choose|j: int| 0 <= j < m.len() && m[j] == ts[i];
                if topic_matches(ts[n - 1], q) {
                    assert(r[j] == m[j]);
                }
            } else {
                assert(r[m.len() as int] == ts[i]);
            }
        }
        assert forall|x: HelpTopic| #[trigger] r.contains(x) implies ts.contains(x) && topic_matches(x, q) by {
            let j = choose|j: int| 0 <= j < r.len() && r[j] == x;
            if j < m.len() {
                assert(m[j] == x);
                assert(m.contains(x));
            } else {
                assert(ts[n - 1] == x);
            }
        }
    }
}

/// What a help search keeps, for a lowercased search text `q`: every topic whose
/// lowercased title or summary contains `q` (every topic when `q` is empty) is shown, and
/// every topic shown is one of the topics and matches in that way.
pub proof fn law_topic_search(ts: Seq<HelpTopic>, q: Seq<char>)
    ensures
        forall|i: int|
            0 <= i < ts.len() && (q.len() == 0 || contains_seq(to_lowercase(ts[i].title@), q)
                || contains_seq(to_lowercase(ts[i].summary@), q)) ==> matching_topics(
                ts,
                q,
                ts.len() as int,
            ).contains(#[trigger] ts[i]),
        forall|x: HelpTopic| #[trigger] matching_topics(ts, q, ts.len() as int).contains(x) ==> {
            &&& ts.contains(x)
            &&& (q.len() == 0 || contains_seq(to_lowercase(x.title@), q) || contains_seq(
                to_lowercase(x.summary@),
                q,
            ))
        },
{
    lemma_matching_topics(ts, q, ts.len() as int);
}

} // verus!
