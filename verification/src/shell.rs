//! Desktop shell state machine: the messages the shell processes and how each one
//! changes the shell chrome (header, launcher, notifications, active app).
//!
//! Window management and the clock are outside the shell chrome: `update` reports them
//! as a [`ShellEffect`] for the window host to carry out, and the host reports back with
//! [`DesktopShell::after_window_closed`] and [`DesktopShell::set_clock`].
use vstd::prelude::*;
use crate::header::HeaderState;
use crate::launcher::{
    entry_views, group_views, grouped, matching_entries, page_of, pages_for, AppGroup,
    AppGroupView, LauncherState, GROUPS_PER_PAGE,
};
use crate::notification::{
    all_read, without_id, NotificationHistory, NotificationManager,
};
use crate::taskbar::{AppEntry, WindowId};
use crate::text::{
    char_to_uppercase, chars_of, concat, decimal, decimal_string, owned, starts_with, str_eq,
    to_lowercase, uppercase_char,
};

verus! {

/// The applications the shell can open.
#[derive(Clone, Copy, PartialEq, Eq, Debug, Hash, Structural)]
pub enum AppId {
    Browser,
    Settings,
    Profile,
    Store,
    Lenses,
    Builder,
    Tasks,
    Bots,
    Ai,
    Container,
    Managers,
    Help,
}

/// All messages the desktop shell can process.
#[derive(Debug, Clone)]
pub enum DesktopMessage {
    OpenApp(AppId),
    CloseWindow(WindowId),
    FocusWindow(WindowId),
    MinimizeWindow(WindowId),
    MenuAction(String),
    SidebarSelect(String),
    NotificationDismiss(u64),
    NotificationMarkRead,
    LauncherToggle,
    LauncherSearch(String),
    LauncherLaunch(String),
    LauncherClose,
    LauncherPrevPage,
    LauncherNextPage,
    LauncherGotoPage(usize),
    HeaderMenuToggle(usize),
    HeaderMenuClose,
    HeaderAvatarToggle,
    ClockTick,
    Noop,
}

/// Work that `update` leaves to the window host.
#[derive(Debug, Clone, Copy, PartialEq, Eq, Structural)]
pub enum ShellEffect {
    /// Nothing to do.
    Nothing,
    /// Open a window for the app.
    OpenWindow(AppId),
    /// Close the window (then report the remaining count to `after_window_closed`).
    CloseWindow(WindowId),
    /// Focus the window.
    FocusWindow(WindowId),
    /// Minimize the window.
    MinimizeWindow(WindowId),
    /// Read the clock and pass the time to `set_clock`.
    RefreshClock,
}

/// The app a sidebar item id selects, if any.
pub open spec fn sidebar_app(id: Seq<char>) -> Option<AppId> {
    if id == "browser"@ {
        Some(AppId::Browser)
    } else if id == "settings"@ {
        Some(AppId::Settings)
    } else if id == "profile"@ {
        Some(AppId::Profile)
    } else if id == "store"@ {
        Some(AppId::Store)
    } else if id == "lenses"@ {
        Some(AppId::Lenses)
    } else if id == "builder"@ {
        Some(AppId::Builder)
    } else if id == "tasks"@ {
        Some(AppId::Tasks)
    } else if id == "bots"@ {
        Some(AppId::Bots)
    } else if id == "ai"@ {
        Some(AppId::Ai)
    } else if id == "container-app"@ {
        Some(AppId::Container)
    } else if id == "managers"@ || id == "managers-folder"@ {
        Some(AppId::Managers)
    } else if id == "help"@ {
        Some(AppId::Help)
    } else {
        None
    }
}

/// The app a sidebar item id selects, if any.
pub fn app_for_sidebar_id(id: &str) -> (a: Option<AppId>)
    ensures
        a == sidebar_app(id@),
{
    if str_eq(id, "browser") {
        Some(AppId::Browser)
    } else if str_eq(id, "settings") {
        Some(AppId::Settings)
    } else if str_eq(id, "profile") {
        Some(AppId::Profile)
    } else if str_eq(id, "store") {
        Some(AppId::Store)
    } else if str_eq(id, "lenses") {
        Some(AppId::Lenses)
    } else if str_eq(id, "builder") {
        Some(AppId::Builder)
    } else if str_eq(id, "tasks") {
        Some(AppId::Tasks)
    } else if str_eq(id, "bots") {
        Some(AppId::Bots)
    } else if str_eq(id, "ai") {
        Some(AppId::Ai)
    } else if str_eq(id, "container-app") {
        Some(AppId::Container)
    } else if str_eq(id, "managers") || str_eq(id, "managers-folder") {
        Some(AppId::Managers)
    } else if str_eq(id, "help") {
        Some(AppId::Help)
    } else {
        None
    }
}

/// The number of launcher pages for the apps matching `query`.
pub open spec fn launcher_pages(apps: Seq<AppEntry>, query: Seq<char>) -> int {
    pages_for(grouped(matching_entries(entry_views(apps), to_lowercase(query))).len() as int)
}

/// Root desktop shell state: the chrome around the open apps.
pub struct DesktopShell {
    pub active_app: Option<AppId>,
    pub header_state: HeaderState,
    pub taskbar_apps: Vec<AppEntry>,
    pub notifications: NotificationManager,
    pub notification_history: NotificationHistory,
    pub launcher_state: LauncherState,
    pub current_desktop: usize,
    pub clock_time: String,
    pub clock_date: String,
}

/// The launcher state after `toggle`.
pub open spec fn toggled(l: LauncherState) -> (bool, Seq<char>, usize) {
    if l.open {
        (false, Seq::empty(), 0usize)
    } else {
        (true, l.query@, l.page)
    }
}

/// The observable launcher state.
pub open spec fn launcher_view(l: LauncherState) -> (bool, Seq<char>, usize) {
    (l.open, l.query@, l.page)
}

/// The observable header state.
pub open spec fn header_view(h: HeaderState) -> (Option<usize>, Seq<char>, bool) {
    (h.open_menu, h.user_name@, h.avatar_menu_open)
}

impl DesktopShell {
    /// The notification stores are well formed.
    pub open spec fn wf(&self) -> bool {
        self.notifications.wf() && self.notification_history.wf()
    }

    /// A shell on the home screen: no active app, header for `user_name` with no
    /// breadcrumbs and no avatar, launcher closed, no notifications, first desktop.
    pub fn new(user_name: &str, taskbar_apps: Vec<AppEntry>, clock_time: String, clock_date: String) -> (s: Self)
        ensures
            s.wf(),
            s.active_app.is_none(),
            header_view(s.header_state) == (None::<usize>, user_name@, false),
            s.header_state.breadcrumbs@.len() == 0,
            s.header_state.user_avatar is None,
            s.taskbar_apps == taskbar_apps,
            s.notifications.items_view().len() == 0,
            s.notification_history.entries_view().len() == 0,
            launcher_view(s.launcher_state) == (false, Seq::<char>::empty(), 0usize),
            s.current_desktop == 0,
            s.clock_time == clock_time,
            s.clock_date == clock_date,
    {
        DesktopShell {
            active_app: None,
            header_state: HeaderState::new(user_name),
            taskbar_apps,
            notifications: NotificationManager::default(),
            notification_history: NotificationHistory::default(),
            launcher_state: LauncherState { open: false, query: String::new(), page: 0 },
            current_desktop: 0,
            clock_time,
            clock_date,
        }
    }

    /// Handles a top-level menu action: the open menu closes; `"launcher"` toggles the
    /// launcher and `"settings"` makes Settings the active app.
    fn handle_menu_action(&mut self, id: &str)
        ensures
            final(self).header_state.open_menu.is_none(),
            final(self).header_state.user_name == old(self).header_state.user_name,
            final(self).header_state.avatar_menu_open == old(self).header_state.avatar_menu_open,
            final(self).header_state.breadcrumbs == old(self).header_state.breadcrumbs,
            final(self).header_state.user_avatar == old(self).header_state.user_avatar,
            launcher_view(final(self).launcher_state) == if id@ == "launcher"@ {
                toggled(old(self).launcher_state)
            } else {
                launcher_view(old(self).launcher_state)
            },
            final(self).active_app == if id@ == "settings"@ {
                Some(AppId::Settings)
            } else {
                old(self).active_app
            },
            final(self).taskbar_apps == old(self).taskbar_apps,
            final(self).notifications == old(self).notifications,
            final(self).notification_history == old(self).notification_history,
            final(self).current_desktop == old(self).current_desktop,
            final(self).clock_time == old(self).clock_time,
            final(self).clock_date == old(self).clock_date,
    {
        self.header_state.close_menu();
        proof {
            reveal_strlit("launcher");
            reveal_strlit("settings");
            assert("launcher"@[0] != "settings"@[0]);
        }
        if str_eq(id, "launcher") {
            self.launcher_state.toggle();
        } else if str_eq(id, "settings") {
            self.active_app = Some(AppId::Settings);
        }
    }

    /// Makes the app of a sidebar item active; unknown ids change nothing.
    fn handle_sidebar_select(&mut self, id: &str)
        ensures
            final(self).active_app == match sidebar_app(id@) {
                Some(a) => Some(a),
                None => old(self).active_app,
            },
            final(self).header_state == old(self).header_state,
            final(self).launcher_state == old(self).launcher_state,
            final(self).taskbar_apps == old(self).taskbar_apps,
            final(self).notifications == old(self).notifications,
            final(self).notification_history == old(self).notification_history,
            final(self).current_desktop == old(self).current_desktop,
            final(self).clock_time == old(self).clock_time,
            final(self).clock_date == old(self).clock_date,
    {
        if let Some(app) = app_for_sidebar_id(id) {
            self.active_app = Some(app);
        }
    }

    /// Processes one message and returns the window or clock work it leaves to the host.
    pub fn update(&mut self, msg: DesktopMessage) -> (effect: ShellEffect)
        requires
            old(self).wf(),
        ensures
            final(self).wf(),
            final(self).taskbar_apps == old(self).taskbar_apps,
            final(self).current_desktop == old(self).current_desktop,
            final(self).clock_time == old(self).clock_time,
            final(self).clock_date == old(self).clock_date,
            final(self).header_state.breadcrumbs == old(self).header_state.breadcrumbs,
            final(self).header_state.user_avatar == old(self).header_state.user_avatar,
            final(self).notifications.next_id() == old(self).notifications.next_id(),
            final(self).notification_history.next_id() == old(self).notification_history.next_id(),
            match msg {
                DesktopMessage::NotificationDismiss(_) => true,
                _ => final(self).notifications == old(self).notifications,
            },
            match msg {
                DesktopMessage::NotificationMarkRead => true,
                _ => final(self).notification_history == old(self).notification_history,
            },
            match msg {
                DesktopMessage::OpenApp(a) => effect == ShellEffect::OpenWindow(a)
                    && final(self).active_app == Some(a),
                DesktopMessage::CloseWindow(w) => effect == ShellEffect::CloseWindow(w),
                DesktopMessage::FocusWindow(w) => effect == ShellEffect::FocusWindow(w),
                DesktopMessage::MinimizeWindow(w) => effect == ShellEffect::MinimizeWindow(w),
                DesktopMessage::ClockTick => effect == ShellEffect::RefreshClock,
                _ => effect == ShellEffect::Nothing,
            },
            match msg {
                DesktopMessage::OpenApp(_) => true,
                DesktopMessage::MenuAction(id) => final(self).active_app == if id@ == "settings"@ {
                    Some(AppId::Settings)
                } else {
                    old(self).active_app
                },
                DesktopMessage::SidebarSelect(id) => final(self).active_app == match sidebar_app(
                    id@,
                ) {
                    Some(a) => Some(a),
                    None => old(self).active_app,
                },
                DesktopMessage::LauncherLaunch(id) => final(self).active_app == match sidebar_app(
                    id@,
                ) {
                    Some(a) => Some(a),
                    None => old(self).active_app,
                },
                _ => final(self).active_app == old(self).active_app,
            },
            match msg {
                DesktopMessage::MenuAction(id) => header_view(final(self).header_state) == (
                    None::<usize>,
                    old(self).header_state.user_name@,
                    old(self).header_state.avatar_menu_open,
                ),
                DesktopMessage::HeaderMenuToggle(idx) => header_view(final(self).header_state) == (
                    if old(self).header_state.open_menu == Some(idx) {
                        None
                    } else {
                        Some(idx)
                    },
                    old(self).header_state.user_name@,
                    old(self).header_state.avatar_menu_open,
                ),
                DesktopMessage::HeaderMenuClose => header_view(final(self).header_state) == (
                    None::<usize>,
                    old(self).header_state.user_name@,
                    old(self).header_state.avatar_menu_open,
                ),
                DesktopMessage::HeaderAvatarToggle => header_view(final(self).header_state) == (
                    old(self).header_state.open_menu,
                    old(self).header_state.user_name@,
                    !old(self).header_state.avatar_menu_open,
                ),
                _ => header_view(final(self).header_state) == header_view(old(self).header_state),
            },
            match msg {
                DesktopMessage::MenuAction(id) => launcher_view(final(self).launcher_state) == if id@
                    == "launcher"@ {
                    toggled(old(self).launcher_state)
                } else {
                    launcher_view(old(self).launcher_state)
                },
                DesktopMessage::LauncherToggle => launcher_view(final(self).launcher_state)
                    == toggled(old(self).launcher_state),
                DesktopMessage::LauncherSearch(q) => launcher_view(final(self).launcher_state) == (
                    old(self).launcher_state.open,
                    q@,
                    0usize,
                ),
                DesktopMessage::LauncherLaunch(_) => launcher_view(final(self).launcher_state) == (
                    false,
                    Seq::<char>::empty(),
                    0usize,
                ),
                DesktopMessage::LauncherClose => launcher_view(final(self).launcher_state) == (
                    false,
                    Seq::<char>::empty(),
                    0usize,
                ),
                DesktopMessage::LauncherPrevPage => launcher_view(final(self).launcher_state) == (
                    old(self).launcher_state.open,
                    old(self).launcher_state.query@,
                    if old(self).launcher_state.page > 0 {
                        (old(self).launcher_state.page - 1) as usize
                    } else {
                        0usize
                    },
                ),
                DesktopMessage::LauncherNextPage => launcher_view(final(self).launcher_state) == (
                    old(self).launcher_state.open,
                    old(self).launcher_state.query@,
                    if old(self).launcher_state.page + 1 < launcher_pages(
                        old(self).taskbar_apps@,
                        old(self).launcher_state.query@,
                    ) {
                        (old(self).launcher_state.page + 1) as usize
                    } else {
                        old(self).launcher_state.page
                    },
                ),
                DesktopMessage::LauncherGotoPage(idx) => launcher_view(final(self).launcher_state)
                    == (old(self).launcher_state.open, old(self).launcher_state.query@, idx),
                _ => launcher_view(final(self).launcher_state) == launcher_view(
                    old(self).launcher_state,
                ),
            },
            match msg {
                DesktopMessage::NotificationDismiss(id) => final(self).notifications.items_view()
                    == without_id(old(self).notifications.items_view(), id),
                _ => final(self).notifications.items_view() == old(self).notifications.items_view(),
            },
            match msg {
                DesktopMessage::NotificationMarkRead => final(self).notification_history.entries_view()
                    == all_read(old(self).notification_history.entries_view()),
                _ => final(self).notification_history.entries_view()
                    == old(self).notification_history.entries_view(),
            },
    {
        match msg {
            DesktopMessage::OpenApp(app) => {
                self.active_app = Some(app);
                ShellEffect::OpenWindow(app)
            },
            DesktopMessage::CloseWindow(id) => ShellEffect::CloseWindow(id),
            DesktopMessage::FocusWindow(id) => ShellEffect::FocusWindow(id),
            DesktopMessage::MinimizeWindow(id) => ShellEffect::MinimizeWindow(id),
            DesktopMessage::MenuAction(id) => {
                self.handle_menu_action(id.as_str());
                ShellEffect::Nothing
            },
            DesktopMessage::SidebarSelect(id) => {
                self.handle_sidebar_select(id.as_str());
                ShellEffect::Nothing
            },
            DesktopMessage::NotificationDismiss(id) => {
                self.notifications.dismiss(id);
                ShellEffect::Nothing
            },
            DesktopMessage::NotificationMarkRead => {
                self.notification_history.mark_all_read();
                ShellEffect::Nothing
            },
            DesktopMessage::LauncherToggle => {
                self.launcher_state.toggle();
                ShellEffect::Nothing
            },
            DesktopMessage::LauncherSearch(q) => {
                self.launcher_state.set_query(q);
                ShellEffect::Nothing
            },
            DesktopMessage::LauncherLaunch(id) => {
                self.launcher_state.close();
                self.handle_sidebar_select(id.as_str());
                ShellEffect::Nothing
            },
            DesktopMessage::LauncherClose => {
                self.launcher_state.close();
                ShellEffect::Nothing
            },
            DesktopMessage::LauncherPrevPage => {
                let groups = AppGroup::filtered(self.taskbar_apps.as_slice(), self.launcher_state.query.as_str());
                let total = AppGroup::total_pages(groups.as_slice());
                self.launcher_state.prev_page(total);
                ShellEffect::Nothing
            },
            DesktopMessage::LauncherNextPage => {
                let groups = AppGroup::filtered(self.taskbar_apps.as_slice(), self.launcher_state.query.as_str());
                let total = AppGroup::total_pages(groups.as_slice());
                self.launcher_state.next_page(total);
                ShellEffect::Nothing
            },
            DesktopMessage::LauncherGotoPage(idx) => {
                self.launcher_state.goto_page(idx);
                ShellEffect::Nothing
            },
            DesktopMessage::HeaderMenuToggle(idx) => {
                self.header_state.toggle_menu(idx);
                ShellEffect::Nothing
            },
            DesktopMessage::HeaderMenuClose => {
                self.header_state.close_menu();
                ShellEffect::Nothing
            },
            DesktopMessage::HeaderAvatarToggle => {
                self.header_state.toggle_avatar_menu();
                ShellEffect::Nothing
            },
            DesktopMessage::ClockTick => ShellEffect::RefreshClock,
            DesktopMessage::Noop => ShellEffect::Nothing,
        }
    }

    /// After the host closed a window: with no open window left there is no active app.
    pub fn after_window_closed(&mut self, open_windows: usize)
        ensures
            final(self).active_app == if open_windows == 0 {
                None
            } else {
                old(self).active_app
            },
            final(self).header_state == old(self).header_state,
            final(self).launcher_state == old(self).launcher_state,
            final(self).taskbar_apps == old(self).taskbar_apps,
            final(self).notifications == old(self).notifications,
            final(self).notification_history == old(self).notification_history,
            final(self).current_desktop == old(self).current_desktop,
            final(self).clock_time == old(self).clock_time,
            final(self).clock_date == old(self).clock_date,
    {
        if open_windows == 0 {
            self.active_app = None;
        }
    }

    /// Shows a new clock reading (`"%H:%M"` and `"%d.%m.%Y"`).
    pub fn set_clock(&mut self, time: String, date: String)
        ensures
            final(self).clock_time == time,
            final(self).clock_date == date,
            final(self).active_app == old(self).active_app,
            final(self).header_state == old(self).header_state,
            final(self).launcher_state == old(self).launcher_state,
            final(self).taskbar_apps == old(self).taskbar_apps,
            final(self).notifications == old(self).notifications,
            final(self).notification_history == old(self).notification_history,
            final(self).current_desktop == old(self).current_desktop,
    {
        self.clock_time = time;
        self.clock_date = date;
    }
}

// ── What the chrome shows ─────────────────────────────────────────────────────

/// The header bell: the bell alone, or followed by the number of unread notifications.
pub open spec fn bell_text(unread: nat) -> Seq<char> {
    if unread == 0 {
        "🔔"@
    } else {
        "🔔 "@ + decimal(unread)
    }
}

/// The avatar button: the user's first character in upper case, or "?" for an empty name.
pub open spec fn avatar_text(name: Seq<char>) -> Seq<char> {
    if name.len() == 0 {
        "?"@
    } else {
        char_to_uppercase(name[0])
    }
}

/// The icon on a taskbar button or launcher tile: markup icons (starting with `<`) are
/// shown as a dot.
pub open spec fn tile_icon_text(icon: Seq<char>) -> Seq<char> {
    if icon.len() > 0 && icon[0] == '<' {
        "●"@
    } else {
        icon
    }
}

/// The label of the header bell.
pub fn bell_label(unread: usize) -> (s: String)
    ensures
        s@ == bell_text(unread as nat),
{
    if unread == 0 {
        owned("🔔")
    } else {
        let n = decimal_string(unread as u64);
        concat("🔔 ", n.as_str())
    }
}

/// The label of the avatar button for `user_name`.
pub fn avatar_initial(user_name: &str) -> (s: String)
    ensures
        s@ == avatar_text(user_name@),
{
    let cs = chars_of(user_name);
    if cs.len() == 0 {
        owned("?")
    } else {
        uppercase_char(cs[0])
    }
}

/// The icon text shown for an app in the taskbar and the launcher.
pub fn tile_icon(icon: &str) -> (s: String)
    ensures
        s@ == tile_icon_text(icon@),
{
    proof {
        reveal_strlit("<");
    }
    let markup = starts_with(icon, "<");
    proof {
        if icon@.len() > 0 && icon@[0] == '<' {
            assert(icon@.subrange(0, 1) =~= "<"@);
        }
        if markup {
            assert(icon@.subrange(0, 1)[0] == icon@[0]);
        }
    }
    if markup {
        owned("●")
    } else {
        owned(icon)
    }
}

/// The launcher panel's page: the groups on it, whether nothing matched the query, the
/// page shown and the page count, and, when there is more than one page, the
/// "current / total" label and one dot per page (set on the page shown).
pub struct LauncherPage {
    pub groups: Vec<AppGroup>,
    pub no_match: bool,
    pub current: usize,
    pub total: usize,
    pub label: Option<String>,
    pub dots: Vec<bool>,
}

/// The groups of the taskbar apps that match the launcher query.
pub open spec fn launcher_groups(apps: Seq<AppEntry>, query: Seq<char>) -> Seq<AppGroupView> {
    grouped(matching_entries(entry_views(apps), to_lowercase(query)))
}

/// The page the launcher shows: the requested one, or the last page when it asks for more.
pub open spec fn shown_page(page: int, total: int) -> int {
    if page < total - 1 {
        page
    } else {
        total - 1
    }
}

/// The "current / total" label of the page navigation (pages counted from one).
pub open spec fn page_label_text(current: nat, total: nat) -> Seq<char> {
    decimal(current + 1) + " / "@ + decimal(total)
}

impl DesktopShell {
    /// What the launcher panel shows for the current query and page.
    pub fn launcher_page(&self) -> (p: LauncherPage)
        ensures
            ({
                let all = launcher_groups(self.taskbar_apps@, self.launcher_state.query@);
                let total = pages_for(all.len() as int);
                let cur = shown_page(self.launcher_state.page as int, total);
                &&& p.total == total
                &&& p.current == cur
                &&& group_views(p.groups@) == page_of(all, cur)
                &&& p.no_match == (all.len() == 0)
                &&& (total > 1 ==> (p.label matches Some(l) && l@ == page_label_text(
                    cur as nat,
                    total as nat,
                )))
                &&& (total <= 1 ==> p.label is None)
                &&& p.dots@ == (if total > 1 {
                    Seq::new(total as nat, |i: int| i == cur)
                } else {
                    Seq::empty()
                })
            }),
    {
        let groups = AppGroup::filtered(self.taskbar_apps.as_slice(), self.launcher_state.query.as_str());
        let ghost all = launcher_groups(self.taskbar_apps@, self.launcher_state.query@);
        assert(group_views(groups@) == all);
        assert(groups@.len() == all.len());
        let total = AppGroup::total_pages(groups.as_slice());
        assert(total >= 1);
        let current = if self.launcher_state.page < total - 1 {
            self.launcher_state.page
        } else {
            total - 1
        };
        let slice = AppGroup::page_slice(groups.as_slice(), current);
        let mut shown: Vec<AppGroup> = Vec::new();
        let mut i: usize = 0;
        while i < slice.len()
            invariant
                i <= slice@.len(),
                shown@.len() == i,
                forall|k: int| 0 <= k < i ==> #[trigger] shown@[k]@ == slice@[k]@,
            decreases slice@.len() - i,
        {
            let g = slice[i].clone();
            shown.push(g);
            i += 1;
        }
        proof {
            assert(group_views(shown@) =~= group_views(slice@));
            assert(group_views(slice@) =~= page_of(group_views(groups@), current as int)) by {
                lemma_page_of_views(groups@, current as int);
            }
        }
        let mut label: Option<String> = None;
        let mut dots: Vec<bool> = Vec::new();
        if total > 1 {
            let a = decimal_string((current + 1) as u64);
            let b = decimal_string(total as u64);
            let left = concat(a.as_str(), " / ");
            label = Some(concat(left.as_str(), b.as_str()));
            let mut k: usize = 0;
            while k < total
                invariant
                    k <= total,
                    dots@ == Seq::new(k as nat, |j: int| j == current),
                decreases total - k,
            {
                dots.push(k == current);
                k += 1;
                assert(dots@ =~= Seq::new(k as nat, |j: int| j == current));
            }
        }
        assert(dots@ =~= (if total > 1 {
            Seq::new(total as nat, |j: int| j == current)
        } else {
            Seq::empty()
        }));
        LauncherPage { groups: shown, no_match: groups.len() == 0, current, total, label, dots }
    }
}

/// The launcher always shows an existing page: whatever page was asked for and however
/// many groups match, the page shown lies between the first and the last.
pub proof fn law_shown_page_exists(page: usize, groups: nat)
    ensures
        pages_for(groups as int) >= 1,
        0 <= shown_page(page as int, pages_for(groups as int)) < pages_for(groups as int),
{
    if groups > 0 {
        assert((groups + GROUPS_PER_PAGE - 1) / GROUPS_PER_PAGE as int >= 1);
    }
}

/// Taking views commutes with taking a page.
proof fn lemma_page_of_views(gs: Seq<AppGroup>, page: int)
    requires
        page >= 0,
    ensures
        group_views(page_of(gs, page)) == page_of(group_views(gs), page),
{
    let start = page * GROUPS_PER_PAGE;
    if start < gs.len() {
        let end = if start + GROUPS_PER_PAGE <= gs.len() {
            start + GROUPS_PER_PAGE
        } else {
            gs.len() as int
        };
        assert(group_views(gs.subrange(start, end)) =~= group_views(gs).subrange(start, end));
    } else {
        assert(group_views(Seq::<AppGroup>::empty()) =~= Seq::<AppGroupView>::empty());
    }
}


/// The sidebar id that names an app.
pub open spec fn app_sidebar_id(a: AppId) -> Seq<char> {
    match a {
        AppId::Browser => "browser"@,
        AppId::Settings => "settings"@,
        AppId::Profile => "profile"@,
        AppId::Store => "store"@,
        AppId::Lenses => "lenses"@,
        AppId::Builder => "builder"@,
        AppId::Tasks => "tasks"@,
        AppId::Bots => "bots"@,
        AppId::Ai => "ai"@,
        AppId::Container => "container-app"@,
        AppId::Managers => "managers"@,
        AppId::Help => "help"@,
    }
}

proof fn lemma_sidebar_literals()
    ensures
        "browser"@ =~= seq!['b', 'r', 'o', 'w', 's', 'e', 'r'],
        "settings"@ =~= seq!['s', 'e', 't', 't', 'i', 'n', 'g', 's'],
        "profile"@ =~= seq!['p', 'r', 'o', 'f', 'i', 'l', 'e'],
        "store"@ =~= seq!['s', 't', 'o', 'r', 'e'],
        "lenses"@ =~= seq!['l', 'e', 'n', 's', 'e', 's'],
        "builder"@ =~= seq!['b', 'u', 'i', 'l', 'd', 'e', 'r'],
        "tasks"@ =~= seq!['t', 'a', 's', 'k', 's'],
        "bots"@ =~= seq!['b', 'o', 't', 's'],
        "ai"@ =~= seq!['a', 'i'],
        "container-app"@.len() == 13 && "container-app"@[0] == 'c',
        "managers"@.len() == 8 && "managers"@[0] == 'm',
        "managers-folder"@.len() == 15 && "managers-folder"@[0] == 'm',
        "help"@ =~= seq!['h', 'e', 'l', 'p'],
{
    reveal_strlit("browser");
    reveal_strlit("settings");
    reveal_strlit("profile");
    reveal_strlit("store");
    reveal_strlit("lenses");
    reveal_strlit("builder");
    reveal_strlit("tasks");
    reveal_strlit("bots");
    reveal_strlit("ai");
    reveal_strlit("container-app");
    reveal_strlit("managers");
    reveal_strlit("managers-folder");
    reveal_strlit("help");
}

/// Each sidebar id names its own app: the id of every app selects that app, and two
/// different ids select the same app only when both are the Managers entries
/// (`managers` and the `managers-folder` folder).
pub proof fn law_sidebar_ids_name_their_apps(a: AppId, id1: Seq<char>, id2: Seq<char>)
    ensures
        sidebar_app(app_sidebar_id(a)) == Some(a),
        sidebar_app(id1) is Some && sidebar_app(id1) == sidebar_app(id2) && id1 != id2 ==> {
            &&& (id1 == "managers"@ || id1 == "managers-folder"@)
            &&& (id2 == "managers"@ || id2 == "managers-folder"@)
        },
{
    lemma_sidebar_literals();
}

} // verus!
