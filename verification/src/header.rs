//! Header bar and context menu: breadcrumbs, menu bar structure, header state.
use vstd::prelude::*;
use crate::text::owned;

verus! {

// ── Translation ───────────────────────────────────────────────────────────────

/// Looks up the display text for an i18n key.
pub trait Translate {
    /// The text shown for `key`.
    spec fn translation(&self, key: Seq<char>) -> Seq<char>;

    fn t(&self, key: &str) -> (text: String)
        ensures
            text@ == self.translation(key@),
    ;
}

/// Shows every key as its own text (the fallback when no language pack has the key).
pub struct KeyText;

impl Translate for KeyText {
    open spec fn translation(&self, key: Seq<char>) -> Seq<char> {
        key
    }

    fn t(&self, key: &str) -> (text: String) {
        owned(key)
    }
}

// ── Context menu ──────────────────────────────────────────────────────────────

/// A generic right-click context menu entry.
#[derive(Debug)]
pub struct ContextMenuItem {
    pub id: &'static str,
    pub label: String,
    pub icon: Option<&'static str>,
    pub danger: bool,
}

impl ContextMenuItem {
    /// An entry with no icon that is not marked dangerous.
    pub fn new(id: &'static str, label: &str) -> (item: Self)
        ensures
            item.id == id,
            item.label@ == label@,
            item.icon.is_none(),
            !item.danger,
    {
        ContextMenuItem { id, label: owned(label), icon: None, danger: false }
    }

    /// The same entry with `icon` set.
    pub fn with_icon(self, icon: &'static str) -> (item: Self)
        ensures
            item.id == self.id,
            item.label == self.label,
            item.icon == Some(icon),
            item.danger == self.danger,
    {
        let mut s = self;
        s.icon = Some(icon);
        s
    }

    /// The same entry marked dangerous.
    pub fn danger(self) -> (item: Self)
        ensures
            item.id == self.id,
            item.label == self.label,
            item.icon == self.icon,
            item.danger,
    {
        let mut s = self;
        s.danger = true;
        s
    }
}

// ── Breadcrumbs and menu bar ──────────────────────────────────────────────────

/// A single breadcrumb entry.
#[derive(Debug)]
pub struct Breadcrumb {
    pub label: String,
    pub icon: Option<String>,
}

impl Breadcrumb {
    /// A breadcrumb without an icon.
    pub fn new(label: &str) -> (b: Self)
        ensures
            b.label@ == label@,
            b.icon.is_none(),
    {
        Breadcrumb { label: owned(label), icon: None }
    }
}

/// A single action in a submenu (leaf item only).
#[derive(Debug)]
pub struct SubAction {
    pub label: String,
    pub id: &'static str,
}

/// A single action in a menu dropdown.
#[derive(Debug)]
pub enum MenuAction {
    Action { label: String, shortcut: Option<&'static str>, id: &'static str },
    SubMenu { label: String, items: Vec<SubAction> },
    Separator,
}

/// A menu item descriptor for the menu bar.
#[derive(Debug)]
pub struct MenuItem {
    pub label: String,
    pub items: Vec<MenuAction>,
}

/// The abstract value of a [`SubAction`]: (label, id).
pub open spec fn sub_view(s: SubAction) -> (Seq<char>, Seq<char>) {
    (s.label@, s.id@)
}

/// The abstract value of a [`MenuAction`].
pub enum MenuActionView {
    Action { label: Seq<char>, shortcut: Option<Seq<char>>, id: Seq<char> },
    SubMenu { label: Seq<char>, items: Seq<(Seq<char>, Seq<char>)> },
    Separator,
}

/// View of an optional string literal.
pub open spec fn opt_str_view(o: Option<&'static str>) -> Option<Seq<char>> {
    match o {
        Some(s) => Some(s@),
        None => None,
    }
}

/// The abstract value of a [`MenuAction`].
pub open spec fn action_view(a: MenuAction) -> MenuActionView {
    match a {
        MenuAction::Action { label, shortcut, id } => MenuActionView::Action {
            label: label@,
            shortcut: opt_str_view(shortcut),
            id: id@,
        },
        MenuAction::SubMenu { label, items } => MenuActionView::SubMenu {
            label: label@,
            items: items@.map_values(|s: SubAction| sub_view(s)),
        },
        MenuAction::Separator => MenuActionView::Separator,
    }
}

/// The abstract value of a [`MenuItem`]: (label, actions).
pub open spec fn menu_view(m: MenuItem) -> (Seq<char>, Seq<MenuActionView>) {
    (m.label@, m.items@.map_values(|a: MenuAction| action_view(a)))
}

/// A plain action entry of the default menu.
pub open spec fn act(
    tr_key: Seq<char>,
    tr: spec_fn(Seq<char>) -> Seq<char>,
    shortcut: Option<Seq<char>>,
    id: Seq<char>,
) -> MenuActionView {
    MenuActionView::Action { label: tr(tr_key), shortcut, id }
}

/// The default menu bar, with labels looked up through `tr`.
pub open spec fn spec_default_menu(tr: spec_fn(Seq<char>) -> Seq<char>) -> Seq<(Seq<char>, Seq<MenuActionView>)> {
    seq![
        ("FreeSynergy"@, seq![
            act("shell.menu.about"@, tr, None, "about"@),
            act("settings.title"@, tr, Some("Ctrl+,"@), "settings"@),
            act("shell.menu.launcher"@, tr, Some("Ctrl+Space"@), "launcher"@),
            MenuActionView::Separator,
            act("shell.menu.quit"@, tr, Some("Ctrl+Q"@), "quit"@),
        ]),
        (tr("shell.menu.view"@), seq![
            act("shell.menu.fullscreen"@, tr, Some("F11"@), "fullscreen"@),
            MenuActionView::Separator,
            MenuActionView::SubMenu {
                label: tr("shell.menu.theme"@),
                items: seq![
                    ("Midnight Blue"@, "theme-midnight-blue"@),
                    ("Cloud White"@, "theme-cloud-white"@),
                    ("Cupertino"@, "theme-cupertino"@),
                    ("Nordic"@, "theme-nordic"@),
                    ("Rose Pine"@, "theme-rose-pine"@),
                ],
            },
        ]),
        (tr("shell.menu.services"@), seq![
            act("shell.menu.open_container"@, tr, None, "open-container-app"@),
            MenuActionView::Separator,
            act("shell.menu.start_all"@, tr, None, "start-all"@),
            act("shell.menu.stop_all"@, tr, None, "stop-all"@),
        ]),
        (tr("shell.menu.tools"@), seq![
            act("shell.menu.open_store"@, tr, Some("Ctrl+S"@), "open-store"@),
            act("shell.menu.open_tasks"@, tr, Some("Ctrl+T"@), "open-tasks"@),
            act("shell.menu.open_bots"@, tr, None, "open-bots"@),
            MenuActionView::Separator,
            act("shell.menu.install_package"@, tr, Some("Ctrl+I"@), "install-package"@),
        ]),
        (tr("shell.menu.help"@), seq![
            act("shell.menu.help"@, tr, Some("F1"@), "help"@),
            act("shell.menu.keyboard_shortcuts"@, tr, None, "shortcuts"@),
            MenuActionView::Separator,
            act("shell.menu.report_bug"@, tr, None, "report-bug"@),
        ]),
    ]
}

fn action<T: Translate>(tr: &T, key: &str, shortcut: Option<&'static str>, id: &'static str) -> (a: MenuAction)
    ensures
        action_view(a) == (MenuActionView::Action {
            label: tr.translation(key@),
            shortcut: opt_str_view(shortcut),
            id: id@,
        }),
{
    MenuAction::Action { label: tr.t(key), shortcut, id }
}

fn sub_action(label: &str, id: &'static str) -> (s: SubAction)
    ensures
        sub_view(s) == (label@, id@),
{
    SubAction { label: owned(label), id }
}

/// Build the default menu structure, with labels looked up through `tr`.
pub fn default_menu<T: Translate>(tr: &T) -> (menu: Vec<MenuItem>)
    ensures
        menu@.map_values(|m: MenuItem| menu_view(m)) == spec_default_menu(
            |k: Seq<char>| tr.translation(k),
        ),
{
    let app = MenuItem {
        label: owned("FreeSynergy"),
        items: vec![
            action(tr, "shell.menu.about", None, "about"),
            action(tr, "settings.title", Some("Ctrl+,"), "settings"),
            action(tr, "shell.menu.launcher", Some("Ctrl+Space"), "launcher"),
            MenuAction::Separator,
            action(tr, "shell.menu.quit", Some("Ctrl+Q"), "quit"),
        ],
    };
    let view = MenuItem {
        label: tr.t("shell.menu.view"),
        items: vec![
            action(tr, "shell.menu.fullscreen", Some("F11"), "fullscreen"),
            MenuAction::Separator,
            MenuAction::SubMenu {
                label: tr.t("shell.menu.theme"),
                items: vec![
                    sub_action("Midnight Blue", "theme-midnight-blue"),
                    sub_action("Cloud White", "theme-cloud-white"),
                    sub_action("Cupertino", "theme-cupertino"),
                    sub_action("Nordic", "theme-nordic"),
                    sub_action("Rose Pine", "theme-rose-pine"),
                ],
            },
        ],
    };
    let services = MenuItem {
        label: tr.t("shell.menu.services"),
        items: vec![
            action(tr, "shell.menu.open_container", None, "open-container-app"),
            MenuAction::Separator,
            action(tr, "shell.menu.start_all", None, "start-all"),
            action(tr, "shell.menu.stop_all", None, "stop-all"),
        ],
    };
    let tools = MenuItem {
        label: tr.t("shell.menu.tools"),
        items: vec![
            action(tr, "shell.menu.open_store", Some("Ctrl+S"), "open-store"),
            action(tr, "shell.menu.open_tasks", Some("Ctrl+T"), "open-tasks"),
            action(tr, "shell.menu.open_bots", None, "open-bots"),
            MenuAction::Separator,
            action(tr, "shell.menu.install_package", Some("Ctrl+I"), "install-package"),
        ],
    };
    let help = MenuItem {
        label: tr.t("shell.menu.help"),
        items: vec![
            action(tr, "shell.menu.help", Some("F1"), "help"),
            action(tr, "shell.menu.keyboard_shortcuts", None, "shortcuts"),
            MenuAction::Separator,
            action(tr, "shell.menu.report_bug", None, "report-bug"),
        ],
    };
    let ghost trf = |k: Seq<char>| tr.translation(k);
    let ghost spec = spec_default_menu(trf);
    assert(app.items@.map_values(|a: MenuAction| action_view(a)) =~= spec[0].1);
    assert(menu_view(app) == spec[0]);
    match &view.items[2] {
        MenuAction::SubMenu { items, .. } => {
            assert(items@.map_values(|s: SubAction| sub_view(s)) =~= seq![
                ("Midnight Blue"@, "theme-midnight-blue"@),
                ("Cloud White"@, "theme-cloud-white"@),
                ("Cupertino"@, "theme-cupertino"@),
                ("Nordic"@, "theme-nordic"@),
                ("Rose Pine"@, "theme-rose-pine"@),
            ]);
        },
        _ => {},
    }
    assert(view.items@.map_values(|a: MenuAction| action_view(a)) =~= spec[1].1);
    assert(menu_view(view) == spec[1]);
    assert(services.items@.map_values(|a: MenuAction| action_view(a)) =~= spec[2].1);
    assert(menu_view(services) == spec[2]);
    assert(tools.items@.map_values(|a: MenuAction| action_view(a)) =~= spec[3].1);
    assert(menu_view(tools) == spec[3]);
    assert(help.items@.map_values(|a: MenuAction| action_view(a)) =~= spec[4].1);
    assert(menu_view(help) == spec[4]);
    let menu = vec![app, view, services, tools, help];
    assert(menu@.map_values(|m: MenuItem| menu_view(m)) =~= spec_default_menu(
        |k: Seq<char>| tr.translation(k),
    ));
    menu
}

// ── HeaderState ───────────────────────────────────────────────────────────────

/// State for the header menu bar.
#[derive(Debug)]
pub struct HeaderState {
    /// Index of the currently open top-level menu (None = closed).
    pub open_menu: Option<usize>,
    pub breadcrumbs: Vec<Breadcrumb>,
    pub user_name: String,
    pub user_avatar: Option<String>,
    pub avatar_menu_open: bool,
}

impl HeaderState {
    /// Header for `user_name`: no menu open, no breadcrumbs, no avatar.
    pub fn new(user_name: &str) -> (h: Self)
        ensures
            h.open_menu.is_none(),
            h.breadcrumbs@.len() == 0,
            h.user_name@ == user_name@,
            h.user_avatar.is_none(),
            !h.avatar_menu_open,
    {
        HeaderState {
            open_menu: None,
            breadcrumbs: Vec::new(),
            user_name: owned(user_name),
            user_avatar: None,
            avatar_menu_open: false,
        }
    }

    /// The same header with a breadcrumb labelled `label` appended.
    pub fn with_breadcrumb(self, label: &str) -> (h: Self)
        ensures
            h.open_menu == self.open_menu,
            h.breadcrumbs@.len() == self.breadcrumbs@.len() + 1,
            forall|i: int| 0 <= i < self.breadcrumbs@.len() ==> h.breadcrumbs@[i] == self.breadcrumbs@[i],
            h.breadcrumbs@.last().label@ == label@,
            h.breadcrumbs@.last().icon.is_none(),
            h.user_name == self.user_name,
            h.user_avatar == self.user_avatar,
            h.avatar_menu_open == self.avatar_menu_open,
    {
        let mut s = self;
        s.breadcrumbs.push(Breadcrumb::new(label));
        s
    }

    /// Opens top-level menu `idx`, or closes it when it is the one already open.
    pub fn toggle_menu(&mut self, idx: usize)
        ensures
            final(self).open_menu == (if old(self).open_menu == Some(idx) {
                None
            } else {
                Some(idx)
            }),
            final(self).breadcrumbs == old(self).breadcrumbs,
            final(self).user_name == old(self).user_name,
            final(self).user_avatar == old(self).user_avatar,
            final(self).avatar_menu_open == old(self).avatar_menu_open,
    {
        self.open_menu = match self.open_menu {
            Some(open) => if open == idx { None } else { Some(idx) },
            None => Some(idx),
        };
    }

    /// Closes the open top-level menu.
    pub fn close_menu(&mut self)
        ensures
            final(self).open_menu.is_none(),
            final(self).breadcrumbs == old(self).breadcrumbs,
            final(self).user_name == old(self).user_name,
            final(self).user_avatar == old(self).user_avatar,
            final(self).avatar_menu_open == old(self).avatar_menu_open,
    {
        self.open_menu = None;
    }

    /// Opens or closes the avatar menu.
    pub fn toggle_avatar_menu(&mut self)
        ensures
            final(self).avatar_menu_open == !old(self).avatar_menu_open,
            final(self).open_menu == old(self).open_menu,
            final(self).breadcrumbs == old(self).breadcrumbs,
            final(self).user_name == old(self).user_name,
            final(self).user_avatar == old(self).user_avatar,
    {
        self.avatar_menu_open = !self.avatar_menu_open;
    }
}

/// Toggling the same menu twice restores the menu state.
pub proof fn law_toggle_menu_twice(open: Option<usize>, idx: usize)
    ensures
        ({
            let once = if open == Some(idx) { None } else { Some(idx) };
            let twice = if once == Some(idx) { None::<usize> } else { Some(idx) };
            open == Some(idx) || open.is_none() ==> twice == open
        }),
{
}

} // verus!
