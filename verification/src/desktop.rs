//! Desktop root: the decisions behind the header menu, the auto-hiding sidebar, opening
//! and closing app windows, and which window the header's breadcrumb and the sidebar's
//! highlight follow.
use vstd::prelude::*;
use crate::launcher::entry_views;
use crate::header::Breadcrumb;
use crate::taskbar::{AppEntry, AppEntryView, WindowId};
use crate::text::{concat, owned, str_eq, strip_leading, strip_prefix, trim_start_str};

verus! {

// ── Header menu ───────────────────────────────────────────────────────────────

/// What a header menu action asks of the desktop.
#[derive(Debug, Clone, Copy)]
pub enum MenuCommand {
    /// Switch to the theme with this name.
    SetTheme(&'static str),
    /// Open or close the launcher.
    ToggleLauncher,
    /// Nothing.
    Ignore,
}

/// The command of a menu action id.
pub open spec fn menu_command(id: Seq<char>) -> Option<Seq<char>> {
    if id == "theme-midnight-blue"@ {
        Some("midnight-blue"@)
    } else if id == "theme-cloud-white"@ {
        Some("cloud-white"@)
    } else if id == "theme-cupertino"@ {
        Some("cupertino"@)
    } else if id == "theme-nordic"@ {
        Some("nordic"@)
    } else if id == "theme-rose-pine"@ {
        Some("rose-pine"@)
    } else {
        None
    }
}

/// The command for a header menu action: the five `theme-*` actions switch the theme,
/// `"launcher"` toggles the launcher, anything else is ignored.
pub fn menu_action(id: &str) -> (c: MenuCommand)
    ensures
        match menu_command(id@) {
            Some(theme) => c matches MenuCommand::SetTheme(t) && t@ == theme,
            None => if id@ == "launcher"@ {
                c is ToggleLauncher
            } else {
                c is Ignore
            },
        },
{
    if str_eq(id, "theme-midnight-blue") {
        MenuCommand::SetTheme("midnight-blue")
    } else if str_eq(id, "theme-cloud-white") {
        MenuCommand::SetTheme("cloud-white")
    } else if str_eq(id, "theme-cupertino") {
        MenuCommand::SetTheme("cupertino")
    } else if str_eq(id, "theme-nordic") {
        MenuCommand::SetTheme("nordic")
    } else if str_eq(id, "theme-rose-pine") {
        MenuCommand::SetTheme("rose-pine")
    } else if str_eq(id, "launcher") {
        MenuCommand::ToggleLauncher
    } else {
        MenuCommand::Ignore
    }
}

// ── Auto-hiding sidebar ───────────────────────────────────────────────────────

/// The auto-hiding sidebar: shown while the pointer is on it or at the screen's left
/// edge, hidden two seconds after the pointer leaves unless it came back meanwhile.
///
/// Every enter and leave starts a new generation; a hide timer only hides the sidebar
/// when no enter or leave happened since it was started.
#[derive(Debug, Clone, Copy, PartialEq, Eq, Structural)]
pub struct SidebarAutoHide {
    pub visible: bool,
    pub generation: u32,
}

impl SidebarAutoHide {
    /// A visible sidebar at generation 0.
    pub fn new() -> (s: Self)
        ensures
            s.visible,
            s.generation == 0,
    {
        SidebarAutoHide { visible: true, generation: 0 }
    }

    /// The pointer entered the sidebar or the left edge: show it, and cancel a pending hide.
    pub fn on_enter(&mut self)
        requires
            old(self).generation < u32::MAX,
        ensures
            final(self).visible,
            final(self).generation == old(self).generation + 1,
    {
        self.generation = self.generation + 1;
        self.visible = true;
    }

    /// The pointer left the sidebar: returns the generation that the hide timer must
    /// present when it fires.
    pub fn on_leave(&mut self) -> (token: u32)
        requires
            old(self).generation < u32::MAX,
        ensures
            final(self).visible == old(self).visible,
            final(self).generation == old(self).generation + 1,
            token == final(self).generation,
    {
        self.generation = self.generation + 1;
        self.generation
    }

    /// The hide timer started with `token` fired: hide the sidebar unless the pointer
    /// entered or left again since.
    pub fn on_hide_timer(&mut self, token: u32)
        ensures
            final(self).generation == old(self).generation,
            final(self).visible == (old(self).visible && token != old(self).generation),
    {
        if self.generation == token {
            self.visible = false;
        }
    }

    /// The sidebar's CSS transform: on screen, or moved off to the left.
    pub fn transform(&self) -> (s: &'static str)
        ensures
            s@ == (if self.visible { "translateX(0)"@ } else { "translateX(-240px)"@ }),
    {
        if self.visible {
            "translateX(0)"
        } else {
            "translateX(-240px)"
        }
    }
}

/// Leaving and coming back before the timer fires keeps the sidebar visible.
pub proof fn law_reenter_cancels_hide(s: SidebarAutoHide)
    requires
        s.generation < u32::MAX - 1,
    ensures
        ({
            let left = SidebarAutoHide { visible: s.visible, generation: (s.generation + 1) as u32 };
            let token = left.generation;
            let back = SidebarAutoHide { visible: true, generation: (left.generation + 1) as u32 };
            let fired = SidebarAutoHide {
                visible: back.visible && token != back.generation,
                generation: back.generation,
            };
            fired.visible
        }),
{
}

/// Leaving and staying away until the timer fires hides the sidebar.
pub proof fn law_leave_then_timer_hides(s: SidebarAutoHide)
    requires
        s.generation < u32::MAX,
    ensures
        ({
            let left = SidebarAutoHide { visible: s.visible, generation: (s.generation + 1) as u32 };
            let token = left.generation;
            !(left.visible && token != left.generation)
        }),
{
}

// ── Opening and closing app windows ──────────────────────────────────────────

/// What opening an app amounts to.
#[derive(Debug)]
pub enum OpenOutcome {
    /// The app already has a window: focus its first one.
    Focus(WindowId),
    /// Open a new window with this title key (`"app-{id}"`).
    Open(String),
}

fn find_app(apps: &Vec<AppEntry>, id: &str) -> (r: Option<usize>)
    ensures
        match r {
            Some(k) => k < apps@.len() && apps@[k as int]@.id == id@ && forall|j: int| 0 <= j < k ==> #[trigger] apps@[j]@.id != id@,
            None => forall|j: int| 0 <= j < apps@.len() ==> #[trigger] apps@[j]@.id != id@,
        },
{
    let mut i: usize = 0;
    while i < apps.len()
        invariant
            i <= apps@.len(),
            forall|j: int| 0 <= j < i ==> #[trigger] apps@[j]@.id != id@,
        decreases apps@.len() - i,
    {
        if str_eq(apps[i].id.as_str(), id) {
            return Some(i);
        }
        i += 1;
    }
    None
}

/// Opens the app `app_id`: when the first app with that id has a window, its first
/// window is focused and nothing changes; otherwise a window titled `"app-{id}"` is
/// opened under `new_window`, which is recorded as a window of that app (if it exists).
pub fn open_app(apps: &mut Vec<AppEntry>, app_id: &str, new_window: WindowId) -> (o: OpenOutcome)
    ensures
        final(apps)@.len() == old(apps)@.len(),
        match find_first(entry_views(old(apps)@), app_id@) {
            Some(k) => if old(apps)@[k]@.windows.len() > 0 {
                o matches OpenOutcome::Focus(w) && w == old(apps)@[k]@.windows[0]
                    && entry_views(final(apps)@) == entry_views(old(apps)@)
            } else {
                o matches OpenOutcome::Open(t) && t@ == "app-"@ + app_id@
                    && entry_views(final(apps)@) == entry_views(old(apps)@).update(
                    k,
                    AppEntryView { windows: old(apps)@[k]@.windows.push(new_window), ..old(apps)@[k]@ },
                )
            },
            None => o matches OpenOutcome::Open(t) && t@ == "app-"@ + app_id@
                && entry_views(final(apps)@) == entry_views(old(apps)@),
        },
{
    let found = find_app(apps, app_id);
    let ghost ev = entry_views(old(apps)@);
    proof {
        lemma_find_first(ev, app_id@);
        match found {
            Some(k) => {
                assert(ev[k as int] == old(apps)@[k as int]@);
                match find_first(ev, app_id@) {
                    Some(k1) => {
                        assert(ev[k1] == old(apps)@[k1]@);
                    },
                    None => {},
                }
                assert(find_first(ev, app_id@) == Some(k as int));
            },
            None => {
                match find_first(ev, app_id@) {
                    Some(k1) => {
                        assert(ev[k1] == old(apps)@[k1]@);
                    },
                    None => {},
                }
                assert(find_first(ev, app_id@) is None);
            },
        }
    }
    match found {
        Some(k) => {
            if apps[k].windows.len() > 0 {
                return OpenOutcome::Focus(apps[k].windows[0]);
            }
            let title = concat("app-", app_id);
            let mut e = apps.remove(k);
            let ghost removed = apps@;
            e.windows.push(new_window);
            apps.insert(k, e);
            assert(entry_views(apps@) =~= entry_views(old(apps)@).update(
                k as int,
                AppEntryView { windows: old(apps)@[k as int]@.windows.push(new_window), ..old(apps)@[k as int]@ },
            ));
            OpenOutcome::Open(title)
        },
        None => OpenOutcome::Open(concat("app-", app_id)),
    }
}

/// The first index whose entry has id `id`, scanning from the front.
pub open spec fn find_first(apps: Seq<AppEntryView>, id: Seq<char>) -> Option<int>
    decreases apps.len(),
{
    if apps.len() == 0 {
        None
    } else if apps[0].id == id {
        Some(0)
    } else {
        match find_first(apps.drop_first(), id) {
            Some(k) => Some(k + 1),
            None => None,
        }
    }
}

proof fn lemma_find_first(apps: Seq<AppEntryView>, id: Seq<char>)
    ensures
        match find_first(apps, id) {
            Some(k) => 0 <= k < apps.len() && apps[k].id == id && forall|j: int| 0 <= j < k ==> #[trigger] apps[j].id != id,
            None => forall|j: int| 0 <= j < apps.len() ==> #[trigger] apps[j].id != id,
        },
    decreases apps.len(),
{
    if apps.len() > 0 && apps[0].id != id {
        lemma_find_first(apps.drop_first(), id);
        match find_first(apps.drop_first(), id) {
            Some(k) => {
                assert forall|j: int| 0 <= j < k + 1 implies #[trigger] apps[j].id != id by {
                    if j > 0 {
                        assert(apps[j] == apps.drop_first()[j - 1]);
                    }
                }
            },
            None => {
                assert forall|j: int| 0 <= j < apps.len() implies #[trigger] apps[j].id != id by {
                    if j > 0 {
                        assert(apps[j] == apps.drop_first()[j - 1]);
                    }
                }
            },
        }
    }
}

/// `ws` without the window `id`.
pub open spec fn without_window(ws: Seq<WindowId>, id: WindowId) -> Seq<WindowId>
    decreases ws.len(),
{
    if ws.len() == 0 {
        Seq::empty()
    } else {
        let rest = without_window(ws.drop_last(), id);
        if ws.last() == id {
            rest
        } else {
            rest.push(ws.last())
        }
    }
}

fn remove_window(ws: &Vec<WindowId>, id: WindowId) -> (r: Vec<WindowId>)
    ensures
        r@ == without_window(ws@, id),
{
    let mut r: Vec<WindowId> = Vec::new();
    let mut i: usize = 0;
    while i < ws.len()
        invariant
            i <= ws@.len(),
            r@ == without_window(ws@.take(i as int), id),
        decreases ws@.len() - i,
    {
        assert(ws@.take(i + 1).drop_last() =~= ws@.take(i as int));
        assert(ws@.take(i + 1).last() == ws@[i as int]);
        if ws[i] != id {
            r.push(ws[i]);
        }
        i += 1;
    }
    assert(ws@.take(ws@.len() as int) =~= ws@);
    r
}

/// A window was closed: it is no longer a window of any app.
pub fn forget_window(apps: &mut Vec<AppEntry>, id: WindowId)
    ensures
        final(apps)@.len() == old(apps)@.len(),
        forall|k: int| 0 <= k < old(apps)@.len() ==> #[trigger] final(apps)@[k]@ == (AppEntryView {
            windows: without_window(old(apps)@[k]@.windows, id),
            ..old(apps)@[k]@
        }),
{
    let mut i: usize = 0;
    while i < apps.len()
        invariant
            i <= apps@.len(),
            apps@.len() == old(apps)@.len(),
            forall|k: int| 0 <= k < i ==> #[trigger] apps@[k]@ == (AppEntryView {
                windows: without_window(old(apps)@[k]@.windows, id),
                ..old(apps)@[k]@
            }),
            forall|k: int| i <= k < apps@.len() ==> #[trigger] apps@[k] == old(apps)@[k],
        decreases apps@.len() - i,
    {
        let mut e = apps.remove(i);
        let kept = remove_window(&e.windows, id);
        e.windows = kept;
        apps.insert(i, e);
        i += 1;
    }
}

// ── The window in front ──────────────────────────────────────────────────────

/// What the desktop knows of an open window.
#[derive(Debug, Clone)]
pub struct WindowInfo {
    pub id: WindowId,
    pub title_key: String,
    pub minimized: bool,
    pub z_index: u32,
}

/// The window in front among `ws[..n]`: the visible one with the highest z-index, the
/// later one on a tie.
pub open spec fn front_upto(ws: Seq<WindowInfo>, n: int) -> Option<int>
    decreases n,
{
    if n <= 0 {
        None
    } else {
        let r = front_upto(ws, n - 1);
        if ws[n - 1].minimized {
            r
        } else {
            match r {
                None => Some(n - 1),
                Some(t) => if ws[n - 1].z_index >= ws[t].z_index {
                    Some(n - 1)
                } else {
                    Some(t)
                },
            }
        }
    }
}

proof fn lemma_front_bound(ws: Seq<WindowInfo>, n: int)
    requires
        0 <= n <= ws.len(),
    ensures
        match front_upto(ws, n) {
            Some(t) => 0 <= t < n && !ws[t].minimized,
            None => true,
        },
    decreases n,
{
    if n > 0 {
        lemma_front_bound(ws, n - 1);
    }
}

/// The index of the window in front: the visible window with the highest z-index (the
/// last such one on a tie); `None` when every window is minimized.
pub fn front_window(ws: &Vec<WindowInfo>) -> (r: Option<usize>)
    ensures
        match front_upto(ws@, ws@.len() as int) {
            Some(t) => r is Some && r->0 == t,
            None => r is None,
        },
{
    let mut best: Option<usize> = None;
    let mut i: usize = 0;
    while i < ws.len()
        invariant
            i <= ws@.len(),
            match front_upto(ws@, i as int) {
                Some(t) => best is Some && best->0 == t,
                None => best is None,
            },
        decreases ws@.len() - i,
    {
        proof {
            lemma_front_bound(ws@, i as int);
        }
        if !ws[i].minimized {
            best = match best {
                None => Some(i),
                Some(t) => if ws[i].z_index >= ws[t].z_index {
                    Some(i)
                } else {
                    Some(t)
                },
            };
        }
        i += 1;
    }
    best
}

/// The app id of the window in front (its title key without the leading `"app-"`), or
/// empty when no visible window has such a title.
pub fn active_app_id(ws: &Vec<WindowInfo>) -> (s: String)
    ensures
        match front_upto(ws@, ws@.len() as int) {
            Some(t) => if "app-"@.is_prefix_of(ws@[t].title_key@) {
                s@ == ws@[t].title_key@.skip(4)
            } else {
                s@.len() == 0
            },
            None => s@.len() == 0,
        },
{
    proof {
        reveal_strlit("app-");
        assert("app-"@.len() == 4);
        lemma_front_bound(ws@, ws@.len() as int);
    }
    let f = front_window(ws);
    match f {
        Some(t) => {
            assert(front_upto(ws@, ws@.len() as int) == Some(t as int));
            match strip_prefix(ws[t].title_key.as_str(), "app-") {
                Some(rest) => rest,
                None => String::new(),
            }
        },
        None => String::new(),
    }
}

/// The breadcrumb label of a window title key: the key without its leading `"app-"`
/// prefixes, with the built-in apps named.
pub open spec fn crumb_label(title_key: Seq<char>) -> Seq<char> {
    let label = strip_leading(title_key, "app-"@);
    if label == "conductor"@ {
        "Conductor"@
    } else if label == "store"@ {
        "Store"@
    } else if label == "studio"@ {
        "Studio"@
    } else if label == "settings"@ {
        "Settings"@
    } else if label == "profile"@ {
        "Profile"@
    } else if label == "ai"@ {
        "AI Assistant"@
    } else if label == "help"@ {
        "Help"@
    } else {
        label
    }
}

/// The breadcrumb label of a window title key.
pub fn breadcrumb_label(title_key: &str) -> (s: String)
    ensures
        s@ == crumb_label(title_key@),
{
    let label = trim_start_str(title_key, "app-");
    let l = label.as_str();
    if str_eq(l, "conductor") {
        owned("Conductor")
    } else if str_eq(l, "store") {
        owned("Store")
    } else if str_eq(l, "studio") {
        owned("Studio")
    } else if str_eq(l, "settings") {
        owned("Settings")
    } else if str_eq(l, "profile") {
        owned("Profile")
    } else if str_eq(l, "ai") {
        owned("AI Assistant")
    } else if str_eq(l, "help") {
        owned("Help")
    } else {
        label
    }
}

/// The header breadcrumbs: the window in front, or "Desktop" when no window is visible.
pub fn breadcrumbs(ws: &Vec<WindowInfo>) -> (b: Vec<Breadcrumb>)
    ensures
        b@.len() == 1,
        b@[0].icon is None,
        match front_upto(ws@, ws@.len() as int) {
            Some(t) => b@[0].label@ == crumb_label(ws@[t].title_key@),
            None => b@[0].label@ == "Desktop"@,
        },
{
    proof {
        lemma_front_bound(ws@, ws@.len() as int);
    }
    let f = front_window(ws);
    let label = match f {
        Some(t) => {
            assert(front_upto(ws@, ws@.len() as int) == Some(t as int));
            breadcrumb_label(ws[t].title_key.as_str())
        },
        None => owned("Desktop"),
    };
    let mut b: Vec<Breadcrumb> = Vec::new();
    b.push(Breadcrumb::new(label.as_str()));
    b
}

// ── Window contents ───────────────────────────────────────────────────────────

/// The apps a desktop window can hold.
#[derive(Clone, Copy, Debug, PartialEq, Eq, Structural)]
pub enum WindowApp {
    Conductor,
    Store,
    Studio,
    Settings,
    Profile,
    Ai,
    Help,
}

/// The layout an app is framed in inside its window.
#[derive(Clone, Copy, Debug, PartialEq, Eq, Structural)]
pub enum WindowLayout {
    /// The app fills the window as it is.
    Plain,
    /// Layout A.
    A,
    /// Layout C.
    C,
}

/// The app and layout of a window, by its title key `app-{id}`.
pub open spec fn window_content(title_key: Seq<char>) -> Option<(WindowApp, WindowLayout)> {
    if title_key == "app-conductor"@ {
        Some((WindowApp::Conductor, WindowLayout::Plain))
    } else if title_key == "app-store"@ {
        Some((WindowApp::Store, WindowLayout::A))
    } else if title_key == "app-studio"@ {
        Some((WindowApp::Studio, WindowLayout::A))
    } else if title_key == "app-settings"@ {
        Some((WindowApp::Settings, WindowLayout::Plain))
    } else if title_key == "app-profile"@ {
        Some((WindowApp::Profile, WindowLayout::C))
    } else if title_key == "app-ai"@ {
        Some((WindowApp::Ai, WindowLayout::A))
    } else if title_key == "app-help"@ {
        Some((WindowApp::Help, WindowLayout::A))
    } else {
        None
    }
}

/// What a window shows: its app and the layout around it, or for an unknown title key
/// the message `"Unknown app: {title_key}"`.
pub fn window_contents(title_key: &str) -> (r: Result<(WindowApp, WindowLayout), String>)
    ensures
        match window_content(title_key@) {
            Some(c) => r == Ok::<(WindowApp, WindowLayout), String>(c),
            None => r matches Err(m) && m@ == "Unknown app: "@ + title_key@,
        },
{
    if str_eq(title_key, "app-conductor") {
        Ok((WindowApp::Conductor, WindowLayout::Plain))
    } else if str_eq(title_key, "app-store") {
        Ok((WindowApp::Store, WindowLayout::A))
    } else if str_eq(title_key, "app-studio") {
        Ok((WindowApp::Studio, WindowLayout::A))
    } else if str_eq(title_key, "app-settings") {
        Ok((WindowApp::Settings, WindowLayout::Plain))
    } else if str_eq(title_key, "app-profile") {
        Ok((WindowApp::Profile, WindowLayout::C))
    } else if str_eq(title_key, "app-ai") {
        Ok((WindowApp::Ai, WindowLayout::A))
    } else if str_eq(title_key, "app-help") {
        Ok((WindowApp::Help, WindowLayout::A))
    } else {
        Err(concat("Unknown app: ", title_key))
    }
}

} // verus!
