//! Keyboard shortcuts: the action registry with default shortcuts, custom overrides,
//! and the resolution of the shortcut in effect.
use vstd::prelude::*;
use crate::header::Translate;
use crate::dep_graph::{
    lemma_name_le_antisym, lemma_name_le_total, lemma_name_le_trans, name_le, name_le_exec,
};
use crate::text::{contains_seq, lowercase, owned, str_contains, str_eq, to_lowercase};

verus! {

/// A registered desktop action with an optional keyboard shortcut.
#[derive(Debug)]
pub struct ActionDef {
    pub id: &'static str,
    pub label: String,
    pub category: &'static str,
    pub default_shortcut: Option<&'static str>,
}

/// The abstract value of an [`ActionDef`]: (id, label, category, default shortcut).
pub open spec fn action_def_view(a: ActionDef) -> (Seq<char>, Seq<char>, Seq<char>, Option<Seq<char>>) {
    (
        a.id@,
        a.label@,
        a.category@,
        match a.default_shortcut {
            Some(s) => Some(s@),
            None => None,
        },
    )
}

/// One row of the action registry: (id, label i18n key, category, default shortcut).
pub open spec fn spec_action_table() -> Seq<(Seq<char>, Seq<char>, Seq<char>, Option<Seq<char>>)> {
    seq![
        ("app.settings"@, "settings-shortcuts-action-open-settings"@, "App"@, Some("Ctrl+,"@)),
        ("app.launcher"@, "settings-shortcuts-action-launcher"@, "App"@, Some("Ctrl+Space"@)),
        ("app.quit"@, "settings-shortcuts-action-quit"@, "App"@, Some("Ctrl+Q"@)),
        ("view.fullscreen"@, "settings-shortcuts-action-fullscreen"@, "View"@, Some("F11"@)),
        ("view.sidebar.show"@, "settings-shortcuts-action-sidebar"@, "View"@, None),
        ("store.open"@, "settings-shortcuts-action-store"@, "Tools"@, Some("Ctrl+S"@)),
        ("store.install"@, "settings-shortcuts-action-install"@, "Tools"@, Some("Ctrl+I"@)),
        ("tasks.open"@, "settings-shortcuts-action-tasks"@, "Tools"@, Some("Ctrl+T"@)),
        ("container-app.open"@, "settings-shortcuts-action-container"@, "Tools"@, None),
        ("studio.open"@, "settings-shortcuts-action-studio"@, "Tools"@, None),
        ("bots.open"@, "settings-shortcuts-action-bots"@, "Tools"@, None),
        ("help.open"@, "settings-shortcuts-action-help"@, "Help"@, Some("F1"@)),
        ("help.shortcuts"@, "settings-shortcuts-action-shortcuts"@, "Help"@, None),
        ("window.close"@, "settings-shortcuts-action-close"@, "Window"@, Some("Escape"@)),
    ]
}

fn action_def<T: Translate>(
    tr: &T,
    id: &'static str,
    key: &str,
    category: &'static str,
    default_shortcut: Option<&'static str>,
) -> (a: ActionDef)
    ensures
        action_def_view(a) == (
            id@,
            tr.translation(key@),
            category@,
            match default_shortcut {
                Some(s) => Some(s@),
                None => None,
            },
        ),
{
    ActionDef { id, label: tr.t(key), category, default_shortcut }
}

/// All desktop actions, with labels looked up through `tr`. The source of truth for
/// shortcut defaults.
pub fn register_actions<T: Translate>(tr: &T) -> (actions: Vec<ActionDef>)
    ensures
        actions@.len() == spec_action_table().len(),
        forall|i: int|
            0 <= i < actions@.len() ==> #[trigger] action_def_view(actions@[i]) == ({
                let row = spec_action_table()[i];
                (row.0, tr.translation(row.1), row.2, row.3)
            }),
{
    let actions = vec![
        action_def(tr, "app.settings", "settings-shortcuts-action-open-settings", "App", Some("Ctrl+,")),
        action_def(tr, "app.launcher", "settings-shortcuts-action-launcher", "App", Some("Ctrl+Space")),
        action_def(tr, "app.quit", "settings-shortcuts-action-quit", "App", Some("Ctrl+Q")),
        action_def(tr, "view.fullscreen", "settings-shortcuts-action-fullscreen", "View", Some("F11")),
        action_def(tr, "view.sidebar.show", "settings-shortcuts-action-sidebar", "View", None),
        action_def(tr, "store.open", "settings-shortcuts-action-store", "Tools", Some("Ctrl+S")),
        action_def(tr, "store.install", "settings-shortcuts-action-install", "Tools", Some("Ctrl+I")),
        action_def(tr, "tasks.open", "settings-shortcuts-action-tasks", "Tools", Some("Ctrl+T")),
        action_def(tr, "container-app.open", "settings-shortcuts-action-container", "Tools", None),
        action_def(tr, "studio.open", "settings-shortcuts-action-studio", "Tools", None),
        action_def(tr, "bots.open", "settings-shortcuts-action-bots", "Tools", None),
        action_def(tr, "help.open", "settings-shortcuts-action-help", "Help", Some("F1")),
        action_def(tr, "help.shortcuts", "settings-shortcuts-action-shortcuts", "Help", None),
        action_def(tr, "window.close", "settings-shortcuts-action-close", "Window", Some("Escape")),
    ];
    actions
}

/// Persisted custom shortcut overrides: (action id, key combo) pairs.
#[derive(Debug, Default)]
pub struct ShortcutsConfig {
    pub custom: Vec<(String, String)>,
}

/// Whether no two overrides name the same action (the overrides form a map from action
/// id to key combo).
pub open spec fn keys_distinct(custom: Seq<(String, String)>) -> bool {
    forall|a: int, b: int|
        0 <= a < b < custom.len() ==> #[trigger] custom[a].0@ != #[trigger] custom[b].0@
}

impl ShortcutsConfig {
    /// The overrides form a map: each action id occurs at most once.
    pub open spec fn wf(&self) -> bool {
        keys_distinct(self.custom@)
    }
}

/// The custom shortcut stored for `id`: the first override with that action id.
pub open spec fn custom_for(custom: Seq<(String, String)>, id: Seq<char>) -> Option<Seq<char>>
    decreases custom.len(),
{
    if custom.len() == 0 {
        None
    } else if custom[0].0@ == id {
        Some(custom[0].1@)
    } else {
        custom_for(custom.drop_first(), id)
    }
}

/// The shortcut in effect for an action: the custom one if present, else the default.
pub open spec fn effective_shortcut(
    custom: Seq<(String, String)>,
    id: Seq<char>,
    default_shortcut: Option<Seq<char>>,
) -> Option<Seq<char>> {
    match custom_for(custom, id) {
        Some(s) => Some(s),
        None => default_shortcut,
    }
}

/// Returns the current shortcut for an action (custom over default).
pub fn resolve_shortcut<'a>(action: &'a ActionDef, config: &'a ShortcutsConfig) -> (s: Option<&'a str>)
    ensures
        match s {
            Some(k) => effective_shortcut(config.custom@, action.id@, action_def_view(*action).3)
                == Some(k@),
            None => effective_shortcut(config.custom@, action.id@, action_def_view(*action).3)
                .is_none(),
        },
{
    let mut i: usize = 0;
    assert(config.custom@.skip(0) =~= config.custom@);
    while i < config.custom.len()
        invariant
            i <= config.custom@.len(),
            custom_for(config.custom@, action.id@) == custom_for(config.custom@.skip(i as int), action.id@),
        decreases config.custom@.len() - i,
    {
        assert(config.custom@.skip(i as int).drop_first() =~= config.custom@.skip(i + 1));
        if str_eq(config.custom[i].0.as_str(), action.id) {
            return Some(config.custom[i].1.as_str());
        }
        i += 1;
    }
    action.default_shortcut
}

/// With distinct action ids the lookup is a map lookup: the override stored for an
/// action id is found for it, whatever its position.
pub proof fn law_override_found(custom: Seq<(String, String)>, k: int)
    requires
        keys_distinct(custom),
        0 <= k < custom.len(),
    ensures
        custom_for(custom, custom[k].0@) == Some(custom[k].1@),
    decreases k,
{
    if k > 0 {
        let rest = custom.drop_first();
        assert(custom[0].0@ != custom[k].0@);
        assert(keys_distinct(rest)) by {
            assert forall|a: int, b: int| 0 <= a < b < rest.len() implies #[trigger] rest[a].0@
                != #[trigger] rest[b].0@ by {
                assert(rest[a] == custom[a + 1] && rest[b] == custom[b + 1]);
            }
        }
        assert(rest[k - 1] == custom[k]);
        law_override_found(rest, k - 1);
    }
}

/// Runtime state for the Shortcuts settings section.
#[derive(Debug)]
pub struct ShortcutsState {
    pub config: ShortcutsConfig,
    pub search: String,
    /// Action ID currently being recorded (waiting for key input).
    pub recording: Option<String>,
}

impl ShortcutsState {
    /// The section state for the loaded `config`: empty search, nothing recording.
    pub fn new(config: ShortcutsConfig) -> (s: Self)
        ensures
            s.config == config,
            s.search@.len() == 0,
            s.recording.is_none(),
    {
        ShortcutsState { config, search: String::new(), recording: None }
    }
}

// ── The settings list ─────────────────────────────────────────────────────────

/// Whether an action matches the lowercased search `q`: `q` is empty or occurs in the
/// lowercased label or category.
pub open spec fn action_matches(a: ActionDef, q: Seq<char>) -> bool {
    q.len() == 0 || contains_seq(to_lowercase(a.label@), q) || contains_seq(
        to_lowercase(a.category@),
        q,
    )
}

/// The indices `k < n` of the actions that match, in order.
pub open spec fn matching_actions(actions: Seq<ActionDef>, q: Seq<char>, n: int) -> Seq<int>
    decreases n,
{
    if n <= 0 {
        Seq::empty()
    } else {
        let rest = matching_actions(actions, q, n - 1);
        if action_matches(actions[n - 1], q) {
            rest.push(n - 1)
        } else {
            rest
        }
    }
}

/// With no search text every action is shown.
proof fn lemma_empty_search_shows_all(actions: Seq<ActionDef>, n: int)
    requires
        0 <= n,
    ensures
        matching_actions(actions, Seq::empty(), n) == Seq::new(n as nat, |k: int| k),
    decreases n,
{
    if n > 0 {
        lemma_empty_search_shows_all(actions, n - 1);
        assert(Seq::new((n - 1) as nat, |k: int| k).push(n - 1) =~= Seq::new(n as nat, |k: int| k));
    }
}

/// The actions shown for a search text: the indices of those whose label or category
/// contains it, case-insensitively (all for an empty search).
pub fn filter_actions(actions: &Vec<ActionDef>, search: &str) -> (idx: Vec<usize>)
    ensures
        idx@.map_values(|k: usize| k as int) == matching_actions(
            actions@,
            to_lowercase(search@),
            actions@.len() as int,
        ),
        search@.len() == 0 ==> idx@.map_values(|k: usize| k as int) == Seq::new(
            actions@.len(),
            |k: int| k,
        ),
{
    let q = lowercase(search);
    proof {
        if search@.len() == 0 {
            assert(q@ =~= Seq::<char>::empty());
            lemma_empty_search_shows_all(actions@, actions@.len() as int);
        }
    }
    let mut idx: Vec<usize> = Vec::new();
    let mut i: usize = 0;
    while i < actions.len()
        invariant
            i <= actions@.len(),
            q@ == to_lowercase(search@),
            idx@.map_values(|k: usize| k as int) == matching_actions(actions@, q@, i as int),
        decreases actions@.len() - i,
    {
        let a = &actions[i];
        let hit = q.as_str().unicode_len() == 0 || str_contains(lowercase(a.label.as_str()).as_str(), q.as_str())
            || str_contains(lowercase(a.category).as_str(), q.as_str());
        if hit {
            let ghost before = idx@;
            idx.push(i);
            assert(idx@.map_values(|k: usize| k as int) =~= before.map_values(|k: usize| k as int).push(i as int));
        }
        i += 1;
    }
    idx
}

/// `x` put into the sorted list of distinct categories `sorted`, unless it is there.
pub open spec fn insert_category(sorted: Seq<Seq<char>>, x: Seq<char>) -> Seq<Seq<char>>
    decreases sorted.len(),
{
    if sorted.len() == 0 {
        seq![x]
    } else if sorted.last() == x {
        sorted
    } else if name_le(sorted.last(), x) {
        sorted.push(x)
    } else {
        insert_category(sorted.drop_last(), x).push(sorted.last())
    }
}

/// The categories of the actions at `idx[..n]`, sorted, each once.
pub open spec fn categories_upto(actions: Seq<ActionDef>, idx: Seq<int>, n: int) -> Seq<Seq<char>>
    decreases n,
{
    if n <= 0 {
        Seq::empty()
    } else {
        insert_category(categories_upto(actions, idx, n - 1), actions[idx[n - 1]].category@)
    }
}

fn insert_category_exec(sorted: &mut Vec<&'static str>, x: &'static str)
    ensures
        final(sorted)@.map_values(|c: &'static str| c@) == insert_category(
            old(sorted)@.map_values(|c: &'static str| c@),
            x@,
        ),
{
    let ghost s = sorted@.map_values(|c: &'static str| c@);
    let mut p: usize = sorted.len();
    assert(s.take(p as int) =~= s);
    assert(s.skip(p as int) =~= Seq::<Seq<char>>::empty());
    loop
        invariant
            p <= sorted@.len(),
            sorted@ == old(sorted)@,
            s == sorted@.map_values(|c: &'static str| c@),
            insert_category(s, x@) == insert_category(s.take(p as int), x@) + s.skip(p as int),
        decreases p,
    {
        if p == 0 {
            assert(s.take(0) =~= Seq::<Seq<char>>::empty());
            sorted.insert(0, x);
            assert(sorted@.map_values(|c: &'static str| c@) =~= seq![x@] + s);
            return;
        }
        assert(s.take(p as int).last() == s[p - 1]);
        assert(s[p - 1] == sorted@[p - 1]@);
        if str_eq(sorted[p - 1], x) {
            assert(s.take(p as int) + s.skip(p as int) =~= s);
            return;
        }
        if name_le_exec(sorted[p - 1], x) {
            sorted.insert(p, x);
            assert(sorted@.map_values(|c: &'static str| c@) =~= s.take(p as int).push(x@) + s.skip(
                p as int,
            ));
            return;
        }
        assert(s.take(p as int).drop_last() =~= s.take(p - 1));
        assert(s.skip(p - 1) =~= seq![s[p - 1]] + s.skip(p as int));
        assert(insert_category(s.take(p - 1), x@).push(s[p - 1]) + s.skip(p as int)
            =~= insert_category(s.take(p - 1), x@) + s.skip(p - 1));
        p -= 1;
    }
}

/// The categories of the shown actions, sorted by name, each once.
pub fn action_categories(actions: &Vec<ActionDef>, idx: &Vec<usize>) -> (cats: Vec<&'static str>)
    requires
        forall|k: int| 0 <= k < idx@.len() ==> #[trigger] idx@[k] < actions@.len(),
    ensures
        cats@.map_values(|c: &'static str| c@) == categories_upto(
            actions@,
            idx@.map_values(|k: usize| k as int),
            idx@.len() as int,
        ),
{
    let ghost ix = idx@.map_values(|k: usize| k as int);
    let mut cats: Vec<&'static str> = Vec::new();
    let mut i: usize = 0;
    while i < idx.len()
        invariant
            i <= idx@.len(),
            ix == idx@.map_values(|k: usize| k as int),
            forall|k: int| 0 <= k < idx@.len() ==> #[trigger] idx@[k] < actions@.len(),
            cats@.map_values(|c: &'static str| c@) == categories_upto(actions@, ix, i as int),
        decreases idx@.len() - i,
    {
        assert(ix[i as int] == idx@[i as int] as int);
        insert_category_exec(&mut cats, actions[idx[i]].category);
        i += 1;
    }
    cats
}

/// One row of the shortcut list.
#[derive(Debug)]
pub struct ShortcutRow {
    pub action_id: &'static str,
    pub label: String,
    /// The shortcut in effect (`"—"` without one), or the press-keys prompt while the
    /// action is being recorded.
    pub shortcut: String,
    pub recording: bool,
    /// No custom shortcut overrides the default (no reset button).
    pub is_default: bool,
}

/// Whether the configuration holds a custom shortcut for `id`.
pub open spec fn has_custom(custom: Seq<(String, String)>, id: Seq<char>) -> bool {
    custom_for(custom, id) is Some
}

impl ShortcutsState {
    /// The row for an action: its label, the shortcut shown, whether it is being
    /// recorded, and whether it keeps its default.
    pub fn row<T: Translate>(&self, action: &ActionDef, tr: &T) -> (r: ShortcutRow)
        ensures
            r.action_id == action.id,
            r.label@ == action.label@,
            r.recording == (self.recording matches Some(id) && id@ == action.id@),
            r.is_default == !has_custom(self.config.custom@, action.id@),
            r.shortcut@ == if r.recording {
                tr.translation("settings-shortcuts-press-keys"@)
            } else {
                match effective_shortcut(self.config.custom@, action.id@, action_def_view(*action).3) {
                    Some(k) => k,
                    None => "—"@,
                }
            },
    {
        let recording = match &self.recording {
            Some(id) => str_eq(id.as_str(), action.id),
            None => false,
        };
        let current = resolve_shortcut(action, &self.config);
        let is_default = current_is_default(&self.config, action.id);
        let shortcut = if recording {
            tr.t("settings-shortcuts-press-keys")
        } else {
            match current {
                Some(k) => owned(k),
                None => owned("—"),
            }
        };
        ShortcutRow { action_id: action.id, label: owned(action.label.as_str()), shortcut, recording, is_default }
    }
}

fn current_is_default(config: &ShortcutsConfig, id: &str) -> (b: bool)
    ensures
        b == !has_custom(config.custom@, id@),
{
    let mut i: usize = 0;
    assert(config.custom@.skip(0) =~= config.custom@);
    while i < config.custom.len()
        invariant
            i <= config.custom@.len(),
            custom_for(config.custom@, id@) == custom_for(config.custom@.skip(i as int), id@),
        decreases config.custom@.len() - i,
    {
        assert(config.custom@.skip(i as int).drop_first() =~= config.custom@.skip(i + 1));
        if str_eq(config.custom[i].0.as_str(), id) {
            return false;
        }
        i += 1;
    }
    true
}

/// Names strictly increasing: sorted and each once.
pub open spec fn strictly_sorted(s: Seq<Seq<char>>) -> bool {
    forall|i: int, j: int| 0 <= i < j < s.len() ==> name_le(#[trigger] s[i], #[trigger] s[j]) && s[i] != s[j]
}

proof fn lemma_insert_category(s: Seq<Seq<char>>, x: Seq<char>)
    requires
        strictly_sorted(s),
    ensures
        strictly_sorted(insert_category(s, x)),
        forall|y: Seq<char>| #[trigger] insert_category(s, x).contains(y) <==> (s.contains(y) || y == x),
    decreases s.len(),
{
    let r = insert_category(s, x);
    if s.len() == 0 {
        assert forall|y: Seq<char>| #[trigger] r.contains(y) <==> (s.contains(y) || y == x) by {
            if r.contains(y) {
                assert(r[0] == x);
            }
            if y == x {
                assert(r[0] == x);
            }
        }
    } else if s.last() == x {
        assert forall|y: Seq<char>| #[trigger] r.contains(y) <==> (s.contains(y) || y == x) by {
            if y == x {
                assert(s[s.len() - 1] == x);
            }
        }
    } else if name_le(s.last(), x) {
        assert forall|i: int, j: int| 0 <= i < j < r.len() implies name_le(#[trigger] r[i], #[trigger] r[j]) && r[i] != r[j] by {
            if j == r.len() - 1 {
                if i < s.len() - 1 {
                    lemma_name_le_trans(s[i], s.last(), x);
                    if s[i] == x {
                        lemma_name_le_antisym(s[i], s.last());
                    }
                }
            }
        }
        assert forall|y: Seq<char>| #[trigger] r.contains(y) <==> (s.contains(y) || y == x) by {
            if r.contains(y) {
                let k = choose|k: int| 0 <= k < r.len() && r[k] == y;
                if k < s.len() {
                    assert(s[k] == y);
                }
            }
            if s.contains(y) {
                let k = choose|k: int| 0 <= k < s.len() && s[k] == y;
                assert(r[k] == y);
            }
            if y == x {
                assert(r[s.len() as int] == x);
            }
        }
    } else {
        let t = s.drop_last();
        let last = s.last();
        assert(strictly_sorted(t)) by {
            assert forall|i: int, j: int| 0 <= i < j < t.len() implies name_le(#[trigger] t[i], #[trigger] t[j]) && t[i] != t[j] by {
                assert(t[i] == s[i] && t[j] == s[j]);
            }
        }
        lemma_insert_category(t, x);
        let q = insert_category(t, x);
        assert(r == q.push(last));
        lemma_name_le_total(last, x);
        assert forall|i: int, j: int| 0 <= i < j < r.len() implies name_le(#[trigger] r[i], #[trigger] r[j]) && r[i] != r[j] by {
            if j == r.len() - 1 {
                assert(r[j] == last);
                assert(q.contains(r[i]));
                if r[i] == x {
                    if x == last {
                    }
                } else {
                    assert(t.contains(r[i]));
                    let k = choose|k: int| 0 <= k < t.len() && t[k] == r[i];
                    assert(s[k] == t[k]);
                    assert(s[s.len() - 1] == last);
                }
            } else {
                assert(r[i] == q[i] && r[j] == q[j]);
            }
        }
        assert forall|y: Seq<char>| #[trigger] r.contains(y) <==> (s.contains(y) || y == x) by {
            if r.contains(y) {
                let k = choose|k: int| 0 <= k < r.len() && r[k] == y;
                if k < q.len() {
                    assert(q[k] == y);
                    assert(q.contains(y));
                    if t.contains(y) {
                        let m = choose|m: int| 0 <= m < t.len() && t[m] == y;
                        assert(s[m] == y);
                    }
                } else {
                    assert(s[s.len() - 1] == y);
                }
            }
            if s.contains(y) {
                let k = choose|k: int| 0 <= k < s.len() && s[k] == y;
                if k < s.len() - 1 {
                    assert(t[k] == y);
                    assert(q.contains(y));
                    let m = choose|m: int| 0 <= m < q.len() && q[m] == y;
                    assert(r[m] == y);
                } else {
                    assert(r[r.len() - 1] == y);
                }
            }
            if y == x {
                assert(q.contains(x));
                let m = choose|m: int| 0 <= m < q.len() && q[m] == x;
                assert(r[m] == x);
            }
        }
    }
}

/// The category headings of the shortcut list are sorted by name, each appears once, and
/// they are exactly the categories of the shown actions.
pub proof fn law_categories_sorted_once(actions: Seq<ActionDef>, idx: Seq<int>, n: int)
    requires
        0 <= n <= idx.len(),
    ensures
        strictly_sorted(categories_upto(actions, idx, n)),
        forall|c: Seq<char>| #[trigger] categories_upto(actions, idx, n).contains(c) <==> exists|k: int|
            0 <= k < n && actions[idx[k]].category@ == c,
    decreases n,
{
    if n > 0 {
        law_categories_sorted_once(actions, idx, n - 1);
        let prev = categories_upto(actions, idx, n - 1);
        let x = actions[idx[n - 1]].category@;
        lemma_insert_category(prev, x);
        assert forall|c: Seq<char>| #[trigger] categories_upto(actions, idx, n).contains(c) <==> exists|k: int|
            0 <= k < n && actions[idx[k]].category@ == c by {
            if exists|k: int| 0 <= k < n && actions[idx[k]].category@ == c {
                let k = choose|k: int| 0 <= k < n && actions[idx[k]].category@ == c;
                if k < n - 1 {
                    assert(prev.contains(c));
                }
            }
            if prev.contains(c) {
                let k = choose|k: int| 0 <= k < n - 1 && actions[idx[k]].category@ == c;
            }
        }
    }
}

} // verus!
