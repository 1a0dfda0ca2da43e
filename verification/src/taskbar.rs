//! Taskbar: the registered applications that can appear in the bottom panel.
use vstd::prelude::*;
use crate::text::{concat, owned};

verus! {

/// Homarr Dashboard Icons CDN base URL.
pub const DASHBOARD_ICONS_BASE: &'static str = "https://cdn.jsdelivr.net/gh/homarr-labs/dashboard-icons/svg";

/// `We10X` icon theme raw base URL (scalable SVGs from the upstream repo).
pub const WE10X_ICONS_BASE: &'static str = "https://raw.githubusercontent.com/yeyushengfan258/We10X-icon-theme/master/src";

/// Identifier of an open window.
#[derive(Clone, Copy, PartialEq, Eq, Debug, Hash, Structural)]
pub struct WindowId(pub u64);

/// Returns the CDN URL for a Homarr Dashboard Icon:
/// `{DASHBOARD_ICONS_BASE}/{icon_name}.svg`.
pub fn homarr_icon_url(icon_name: &str) -> (url: String)
    ensures
        url@ == DASHBOARD_ICONS_BASE@ + "/"@ + icon_name@ + ".svg"@,
{
    let mut url = concat(DASHBOARD_ICONS_BASE, "/");
    url.append(icon_name);
    url.append(".svg");
    url
}

/// Returns the raw GitHub URL for a `We10X` icon:
/// `{WE10X_ICONS_BASE}/{subdir}/{icon_name}.svg`.
pub fn we10x_icon_url(subdir: &str, icon_name: &str) -> (url: String)
    ensures
        url@ == WE10X_ICONS_BASE@ + "/"@ + subdir@ + "/"@ + icon_name@ + ".svg"@,
{
    let mut url = concat(WE10X_ICONS_BASE, "/");
    url.append(subdir);
    url.append("/");
    url.append(icon_name);
    url.append(".svg");
    url
}

/// The abstract value of an [`AppEntry`].
pub struct AppEntryView {
    pub id: Seq<char>,
    pub label_key: Seq<char>,
    pub icon: Seq<char>,
    pub icon_url: Option<Seq<char>>,
    pub group: Option<Seq<char>>,
    pub pinned: bool,
    pub windows: Seq<WindowId>,
}

/// View of an optional string.
pub open spec fn opt_view(o: Option<String>) -> Option<Seq<char>> {
    match o {
        Some(s) => Some(s@),
        None => None,
    }
}

/// Clones an optional string.
pub fn clone_opt(o: &Option<String>) -> (r: Option<String>)
    ensures
        opt_view(r) == opt_view(*o),
{
    match o {
        Some(s) => Some(s.clone()),
        None => None,
    }
}

/// A registered application that can appear in the taskbar.
#[derive(Debug)]
pub struct AppEntry {
    /// Unique identifier (e.g. "container-app", "store").
    pub id: String,
    /// i18n key for the display name.
    pub label_key: String,
    /// Fallback emoji/text icon shown when no `icon_url` is available.
    pub icon: String,
    /// Optional icon URL (e.g. Homarr CDN SVG or local path).
    pub icon_url: Option<String>,
    /// Optional group key for app launcher organisation.
    pub group: Option<String>,
    /// Whether this app is pinned to the taskbar permanently.
    pub pinned: bool,
    /// Open window IDs belonging to this app (empty = not running).
    pub windows: Vec<WindowId>,
}

impl View for AppEntry {
    type V = AppEntryView;

    open spec fn view(&self) -> AppEntryView {
        AppEntryView {
            id: self.id@,
            label_key: self.label_key@,
            icon: self.icon@,
            icon_url: opt_view(self.icon_url),
            group: opt_view(self.group),
            pinned: self.pinned,
            windows: self.windows@,
        }
    }
}

impl Clone for AppEntry {
    fn clone(&self) -> (r: Self)
        ensures
            r@ == self@,
    {
        AppEntry {
            id: self.id.clone(),
            label_key: self.label_key.clone(),
            icon: self.icon.clone(),
            icon_url: clone_opt(&self.icon_url),
            group: clone_opt(&self.group),
            pinned: self.pinned,
            windows: self.windows.clone(),
        }
    }
}

impl AppEntry {
    /// Whether any window of this app is open.
    pub fn is_running(&self) -> (b: bool)
        ensures
            b == (self.windows@.len() > 0),
    {
        !self.windows.is_empty()
    }

    /// Convenience constructor: no icon URL, no group, not pinned, no windows.
    pub fn new(id: &str, label_key: &str, icon: &str) -> (e: Self)
        ensures
            e@ == (AppEntryView {
                id: id@,
                label_key: label_key@,
                icon: icon@,
                icon_url: None,
                group: None,
                pinned: false,
                windows: Seq::empty(),
            }),
    {
        AppEntry {
            id: owned(id),
            label_key: owned(label_key),
            icon: owned(icon),
            icon_url: None,
            group: None,
            pinned: false,
            windows: Vec::new(),
        }
    }
}

/// Builds the default pinned apps list: only the Store, pinned, in group "System",
/// with the `We10X` "system-software-install" icon and the given fallback icon.
pub fn default_apps(store_icon: &str) -> (apps: Vec<AppEntry>)
    ensures
        apps@.len() == 1,
        apps@[0]@ == (AppEntryView {
            id: "store"@,
            label_key: "Store"@,
            icon: store_icon@,
            icon_url: Some(
                WE10X_ICONS_BASE@ + "/"@ + "apps/scalable"@ + "/"@ + "system-software-install"@
                    + ".svg"@,
            ),
            group: Some("System"@),
            pinned: true,
            windows: Seq::empty(),
        }),
{
    let store = AppEntry {
        id: owned("store"),
        label_key: owned("Store"),
        icon: owned(store_icon),
        icon_url: Some(we10x_icon_url("apps/scalable", "system-software-install")),
        group: Some(owned("System")),
        pinned: true,
        windows: Vec::new(),
    };
    vec![store]
}

} // verus!
