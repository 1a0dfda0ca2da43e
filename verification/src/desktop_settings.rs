//! Desktop and appearance settings: the option enums with their labels, the default
//! configuration blocks, the settings tabs, and the appearance file contents.
use vstd::prelude::*;
use crate::header::Translate;
use crate::text::{owned, str_eq};

verus! {

// ── Appearance ────────────────────────────────────────────────────────────────

/// State for the Appearance settings section.
#[derive(Debug)]
pub struct AppearanceState {
    pub selected_theme: String,
    pub animations_enabled: bool,
}

/// Built-in theme ids and labels, in display order.
pub open spec fn spec_builtin_themes() -> Seq<(Seq<char>, Seq<char>)> {
    seq![
        ("midnight-blue"@, "Midnight Blue"@),
        ("ocean"@, "Ocean"@),
        ("forest"@, "Forest"@),
        ("sunset"@, "Sunset"@),
        ("light"@, "Light"@),
    ]
}

/// Built-in theme entries: (id, label).
pub fn builtin_themes() -> (themes: Vec<(&'static str, &'static str)>)
    ensures
        themes@.map_values(|t: (&'static str, &'static str)| (t.0@, t.1@)) == spec_builtin_themes(),
{
    let themes = vec![
        ("midnight-blue", "Midnight Blue"),
        ("ocean", "Ocean"),
        ("forest", "Forest"),
        ("sunset", "Sunset"),
        ("light", "Light"),
    ];
    assert(themes@.map_values(|t: (&'static str, &'static str)| (t.0@, t.1@)) =~= spec_builtin_themes());
    themes
}

/// The appearance file text for `theme` and `animations`.
pub open spec fn appearance_text(theme: Seq<char>, animations: bool) -> Seq<char> {
    "theme = \""@ + theme + "\"\nanimations_enabled = "@ + (if animations {
        "true"@
    } else {
        "false"@
    }) + "\n"@
}

impl AppearanceState {
    /// Midnight Blue with animations on.
    pub fn new() -> (s: Self)
        ensures
            s.selected_theme@ == "midnight-blue"@,
            s.animations_enabled,
    {
        AppearanceState { selected_theme: owned("midnight-blue"), animations_enabled: true }
    }

    /// The contents written to the appearance config file.
    pub fn config_text(&self) -> (text: String)
        ensures
            text@ == appearance_text(self.selected_theme@, self.animations_enabled),
    {
        let mut text = owned("theme = \"");
        text.append(self.selected_theme.as_str());
        text.append("\"\nanimations_enabled = ");
        text.append(if self.animations_enabled { "true" } else { "false" });
        text.append("\n");
        text
    }
}

// ── TaskbarPosition ───────────────────────────────────────────────────────────

#[derive(Clone, Copy, Debug, PartialEq, Eq, Structural)]
pub enum TaskbarPosition {
    Bottom,
    Top,
    Left,
    Right,
}

impl TaskbarPosition {
    pub fn label(&self) -> (l: &'static str)
        ensures
            l@ == match *self {
                TaskbarPosition::Bottom => "Bottom"@,
                TaskbarPosition::Top => "Top"@,
                TaskbarPosition::Left => "Left"@,
                TaskbarPosition::Right => "Right"@,
            },
    {
        match self {
            TaskbarPosition::Bottom => "Bottom",
            TaskbarPosition::Top => "Top",
            TaskbarPosition::Left => "Left",
            TaskbarPosition::Right => "Right",
        }
    }
}

// ── DisplayMode ───────────────────────────────────────────────────────────────

/// Preferred rendering mode for the desktop, applied on the next launch.
#[derive(Clone, Copy, Debug, PartialEq, Eq, Structural)]
pub enum DisplayMode {
    /// Native OS window.
    Window,
    /// Browser / web server.
    Web,
    /// Terminal UI.
    Tui,
}

impl DisplayMode {
    pub fn label(&self) -> (l: &'static str)
        ensures
            l@ == match *self {
                DisplayMode::Window => "Window"@,
                DisplayMode::Web => "Web"@,
                DisplayMode::Tui => "TUI"@,
            },
    {
        match self {
            DisplayMode::Window => "Window",
            DisplayMode::Web => "Web",
            DisplayMode::Tui => "TUI",
        }
    }

    /// The i18n key of this mode's description.
    pub fn description_key(&self) -> (k: &'static str)
        ensures
            k@ == match *self {
                DisplayMode::Window => "settings-desktop-mode-window"@,
                DisplayMode::Web => "settings-desktop-mode-web"@,
                DisplayMode::Tui => "settings-desktop-mode-tui"@,
            },
    {
        match self {
            DisplayMode::Window => "settings-desktop-mode-window",
            DisplayMode::Web => "settings-desktop-mode-web",
            DisplayMode::Tui => "settings-desktop-mode-tui",
        }
    }

    /// This mode's description, looked up through `tr`.
    pub fn description<T: Translate>(&self, tr: &T) -> (d: String)
        ensures
            d@ == tr.translation(match *self {
                DisplayMode::Window => "settings-desktop-mode-window"@,
                DisplayMode::Web => "settings-desktop-mode-web"@,
                DisplayMode::Tui => "settings-desktop-mode-tui"@,
            }),
    {
        tr.t(self.description_key())
    }
}

// ── Sidebar ───────────────────────────────────────────────────────────────────

#[derive(Clone, Copy, Debug, PartialEq, Eq, Structural)]
pub enum SidebarPosition {
    Left,
    Right,
    Top,
    Bottom,
}

impl SidebarPosition {
    pub fn label(&self) -> (l: &'static str)
        ensures
            l@ == match *self {
                SidebarPosition::Left => "Left"@,
                SidebarPosition::Right => "Right"@,
                SidebarPosition::Top => "Top"@,
                SidebarPosition::Bottom => "Bottom"@,
            },
    {
        match self {
            SidebarPosition::Left => "Left",
            SidebarPosition::Right => "Right",
            SidebarPosition::Top => "Top",
            SidebarPosition::Bottom => "Bottom",
        }
    }
}

#[derive(Clone, Copy, Debug, PartialEq, Eq, Structural)]
pub struct SidebarConfig {
    pub position: SidebarPosition,
    pub collapsible: bool,
    pub default_collapsed: bool,
    pub width: u32,
}

impl Default for SidebarConfig {
    fn default() -> (c: Self)
        ensures
            c == (SidebarConfig {
                position: SidebarPosition::Left,
                collapsible: true,
                default_collapsed: false,
                width: 240,
            }),
    {
        SidebarConfig {
            position: SidebarPosition::Left,
            collapsible: true,
            default_collapsed: false,
            width: 240,
        }
    }
}

// ── Window behaviour ──────────────────────────────────────────────────────────

/// Window title bar decoration style.
#[derive(Clone, Copy, Debug, PartialEq, Eq, Structural)]
pub enum TitleBarStyle {
    Full,
    Compact,
    Minimal,
    Hidden,
}

impl TitleBarStyle {
    pub fn label(&self) -> (l: &'static str)
        ensures
            l@ == match *self {
                TitleBarStyle::Full => "Full"@,
                TitleBarStyle::Compact => "Compact"@,
                TitleBarStyle::Minimal => "Minimal"@,
                TitleBarStyle::Hidden => "Hidden"@,
            },
    {
        match self {
            TitleBarStyle::Full => "Full",
            TitleBarStyle::Compact => "Compact",
            TitleBarStyle::Minimal => "Minimal",
            TitleBarStyle::Hidden => "Hidden",
        }
    }
}

/// Width of the invisible resize border around windows.
#[derive(Clone, Copy, Debug, PartialEq, Eq, Structural)]
pub enum ResizeEdgeSize {
    Narrow,
    Normal,
    Wide,
}

impl ResizeEdgeSize {
    pub fn label(&self) -> (l: &'static str)
        ensures
            l@ == match *self {
                ResizeEdgeSize::Narrow => "Narrow"@,
                ResizeEdgeSize::Normal => "Normal"@,
                ResizeEdgeSize::Wide => "Wide"@,
            },
    {
        match self {
            ResizeEdgeSize::Narrow => "Narrow",
            ResizeEdgeSize::Normal => "Normal",
            ResizeEdgeSize::Wide => "Wide",
        }
    }

    /// The pixel width for this edge size.
    pub fn pixels(&self) -> (px: u32)
        ensures
            px == match *self {
                ResizeEdgeSize::Narrow => 2u32,
                ResizeEdgeSize::Normal => 4u32,
                ResizeEdgeSize::Wide => 8u32,
            },
    {
        match self {
            ResizeEdgeSize::Narrow => 2,
            ResizeEdgeSize::Normal => 4,
            ResizeEdgeSize::Wide => 8,
        }
    }
}

/// Action performed when the title bar is double-clicked.
#[derive(Clone, Copy, Debug, PartialEq, Eq, Structural)]
pub enum DoubleClickAction {
    Maximize,
    Minimize,
    Shade,
    Close,
}

impl DoubleClickAction {
    pub fn label(&self) -> (l: &'static str)
        ensures
            l@ == match *self {
                DoubleClickAction::Maximize => "Maximize"@,
                DoubleClickAction::Minimize => "Minimize"@,
                DoubleClickAction::Shade => "Shade"@,
                DoubleClickAction::Close => "Close"@,
            },
    {
        match self {
            DoubleClickAction::Maximize => "Maximize",
            DoubleClickAction::Minimize => "Minimize",
            DoubleClickAction::Shade => "Shade",
            DoubleClickAction::Close => "Close",
        }
    }
}

/// Window focus acquisition policy.
#[derive(Clone, Copy, Debug, PartialEq, Eq, Structural)]
pub enum FocusPolicy {
    Click,
    FocusFollowsMouse,
    StrictFollowsMouse,
}

impl FocusPolicy {
    pub fn label(&self) -> (l: &'static str)
        ensures
            l@ == match *self {
                FocusPolicy::Click => "Click"@,
                FocusPolicy::FocusFollowsMouse => "Focus Follows Mouse"@,
                FocusPolicy::StrictFollowsMouse => "Strict Follows Mouse"@,
            },
    {
        match self {
            FocusPolicy::Click => "Click",
            FocusPolicy::FocusFollowsMouse => "Focus Follows Mouse",
            FocusPolicy::StrictFollowsMouse => "Strict Follows Mouse",
        }
    }
}

/// Window decoration and interaction behaviour.
#[derive(Clone, Copy, Debug, PartialEq, Eq, Structural)]
pub struct WindowConfig {
    pub title_bar_style: TitleBarStyle,
    pub resize_edge_size: ResizeEdgeSize,
    pub double_click_action: DoubleClickAction,
    pub focus_policy: FocusPolicy,
    pub snap_zones_enabled: bool,
}

impl Default for WindowConfig {
    fn default() -> (c: Self)
        ensures
            c == (WindowConfig {
                title_bar_style: TitleBarStyle::Full,
                resize_edge_size: ResizeEdgeSize::Normal,
                double_click_action: DoubleClickAction::Maximize,
                focus_policy: FocusPolicy::Click,
                snap_zones_enabled: true,
            }),
    {
        WindowConfig {
            title_bar_style: TitleBarStyle::Full,
            resize_edge_size: ResizeEdgeSize::Normal,
            double_click_action: DoubleClickAction::Maximize,
            focus_policy: FocusPolicy::Click,
            snap_zones_enabled: true,
        }
    }
}

// ── Click behaviour ───────────────────────────────────────────────────────────

/// Whether icons and items are opened on single or double click.
#[derive(Clone, Copy, Debug, PartialEq, Eq, Structural)]
pub enum ClickStyle {
    Single,
    Double,
}

impl ClickStyle {
    pub fn label(&self) -> (l: &'static str)
        ensures
            l@ == match *self {
                ClickStyle::Single => "Single Click"@,
                ClickStyle::Double => "Double Click"@,
            },
    {
        match self {
            ClickStyle::Single => "Single Click",
            ClickStyle::Double => "Double Click",
        }
    }
}

/// Mouse click and drag behaviour.
#[derive(Clone, Copy, Debug, PartialEq, Eq, Structural)]
pub struct ClickConfig {
    /// Whether icons are opened on single or double click.
    pub icon_click: ClickStyle,
    /// Pixels the pointer must move before a drag gesture is initiated.
    pub drag_threshold: u32,
}

impl Default for ClickConfig {
    fn default() -> (c: Self)
        ensures
            c == (ClickConfig { icon_click: ClickStyle::Double, drag_threshold: 4 }),
    {
        ClickConfig { icon_click: ClickStyle::Double, drag_threshold: 4 }
    }
}

// ── Icons ─────────────────────────────────────────────────────────────────────

/// Icon and cursor set selection.
#[derive(Debug)]
pub struct IconConfig {
    /// ID of the active icon set.
    pub icon_set_id: String,
    /// ID of the active cursor theme.
    pub cursor_set_id: String,
}

impl Default for IconConfig {
    fn default() -> (c: Self)
        ensures
            c.icon_set_id@ == "fs-default"@,
            c.cursor_set_id@ == "fs-default"@,
    {
        IconConfig { icon_set_id: owned("fs-default"), cursor_set_id: owned("fs-default") }
    }
}

// ── Workspace ─────────────────────────────────────────────────────────────────

/// Workspace panel layout density.
#[derive(Clone, Copy, Debug, PartialEq, Eq, Structural)]
pub enum PanelArrangement {
    Default,
    Compact,
    Wide,
}

impl PanelArrangement {
    pub fn label(&self) -> (l: &'static str)
        ensures
            l@ == match *self {
                PanelArrangement::Default => "Default"@,
                PanelArrangement::Compact => "Compact"@,
                PanelArrangement::Wide => "Wide"@,
            },
    {
        match self {
            PanelArrangement::Default => "Default",
            PanelArrangement::Compact => "Compact",
            PanelArrangement::Wide => "Wide",
        }
    }
}

/// Workspace layout configuration.
#[derive(Clone, Copy, Debug, PartialEq, Eq, Structural)]
pub struct WorkspaceConfig {
    /// Number of columns in the workspace grid.
    pub columns: u32,
    pub panel_arrangement: PanelArrangement,
}

impl Default for WorkspaceConfig {
    fn default() -> (c: Self)
        ensures
            c == (WorkspaceConfig { columns: 3, panel_arrangement: PanelArrangement::Default }),
    {
        WorkspaceConfig { columns: 3, panel_arrangement: PanelArrangement::Default }
    }
}

// ── DesktopTab ────────────────────────────────────────────────────────────────

/// Tabs inside the Desktop settings section.
#[derive(Clone, Copy, PartialEq, Eq, Debug, Structural)]
pub enum DesktopTab {
    General,
    Window,
    Click,
    Animations,
    Icons,
    Workspace,
}

impl DesktopTab {
    /// All tabs, in display order.
    pub fn all() -> (tabs: Vec<DesktopTab>)
        ensures
            tabs@ == seq![
                DesktopTab::General,
                DesktopTab::Window,
                DesktopTab::Click,
                DesktopTab::Animations,
                DesktopTab::Icons,
                DesktopTab::Workspace,
            ],
    {
        let tabs = vec![
            DesktopTab::General,
            DesktopTab::Window,
            DesktopTab::Click,
            DesktopTab::Animations,
            DesktopTab::Icons,
            DesktopTab::Workspace,
        ];
        assert(tabs@ =~= seq![
            DesktopTab::General,
            DesktopTab::Window,
            DesktopTab::Click,
            DesktopTab::Animations,
            DesktopTab::Icons,
            DesktopTab::Workspace,
        ]);
        tabs
    }

    /// The i18n key of this tab's label.
    pub fn label_key(&self) -> (k: &'static str)
        ensures
            k@ == match *self {
                DesktopTab::General => "settings-desktop-tab-general"@,
                DesktopTab::Window => "settings-desktop-tab-window"@,
                DesktopTab::Click => "settings-desktop-tab-click"@,
                DesktopTab::Animations => "settings-desktop-tab-animations"@,
                DesktopTab::Icons => "settings-desktop-tab-icons"@,
                DesktopTab::Workspace => "settings-desktop-tab-workspace"@,
            },
    {
        match self {
            DesktopTab::General => "settings-desktop-tab-general",
            DesktopTab::Window => "settings-desktop-tab-window",
            DesktopTab::Click => "settings-desktop-tab-click",
            DesktopTab::Animations => "settings-desktop-tab-animations",
            DesktopTab::Icons => "settings-desktop-tab-icons",
            DesktopTab::Workspace => "settings-desktop-tab-workspace",
        }
    }

    /// This tab's label, looked up through `tr`.
    pub fn label<T: Translate>(&self, tr: &T) -> (l: String)
        ensures
            l@ == tr.translation(match *self {
                DesktopTab::General => "settings-desktop-tab-general"@,
                DesktopTab::Window => "settings-desktop-tab-window"@,
                DesktopTab::Click => "settings-desktop-tab-click"@,
                DesktopTab::Animations => "settings-desktop-tab-animations"@,
                DesktopTab::Icons => "settings-desktop-tab-icons"@,
                DesktopTab::Workspace => "settings-desktop-tab-workspace"@,
            }),
    {
        tr.t(self.label_key())
    }
}

// ── Choice ids ────────────────────────────────────────────────────────────────
//
// The settings tabs send the choice a button stands for as a short id.

/// The id of a taskbar position.
pub open spec fn taskbar_pos_id(p: TaskbarPosition) -> Seq<char> {
    match p {
        TaskbarPosition::Bottom => "bottom"@,
        TaskbarPosition::Top => "top"@,
        TaskbarPosition::Left => "left"@,
        TaskbarPosition::Right => "right"@,
    }
}

/// The taskbar position with id `id`, if any.
pub open spec fn taskbar_pos_of(id: Seq<char>) -> Option<TaskbarPosition> {
    if id == "bottom"@ {
        Some(TaskbarPosition::Bottom)
    } else if id == "top"@ {
        Some(TaskbarPosition::Top)
    } else if id == "left"@ {
        Some(TaskbarPosition::Left)
    } else if id == "right"@ {
        Some(TaskbarPosition::Right)
    } else {
        None
    }
}

/// The id of a focus policy.
pub open spec fn focus_policy_id(p: FocusPolicy) -> Seq<char> {
    match p {
        FocusPolicy::Click => "click"@,
        FocusPolicy::FocusFollowsMouse => "focus_follows_mouse"@,
        FocusPolicy::StrictFollowsMouse => "strict_follows_mouse"@,
    }
}

/// The focus policy with id `id`, if any.
pub open spec fn focus_policy_of(id: Seq<char>) -> Option<FocusPolicy> {
    if id == "click"@ {
        Some(FocusPolicy::Click)
    } else if id == "focus_follows_mouse"@ {
        Some(FocusPolicy::FocusFollowsMouse)
    } else if id == "strict_follows_mouse"@ {
        Some(FocusPolicy::StrictFollowsMouse)
    } else {
        None
    }
}

/// The id of a title bar style.
pub open spec fn title_bar_id(s: TitleBarStyle) -> Seq<char> {
    match s {
        TitleBarStyle::Full => "full"@,
        TitleBarStyle::Compact => "compact"@,
        TitleBarStyle::Minimal => "minimal"@,
        TitleBarStyle::Hidden => "hidden"@,
    }
}

/// The title bar style with id `id`, if any.
pub open spec fn title_bar_of(id: Seq<char>) -> Option<TitleBarStyle> {
    if id == "full"@ {
        Some(TitleBarStyle::Full)
    } else if id == "compact"@ {
        Some(TitleBarStyle::Compact)
    } else if id == "minimal"@ {
        Some(TitleBarStyle::Minimal)
    } else if id == "hidden"@ {
        Some(TitleBarStyle::Hidden)
    } else {
        None
    }
}

/// The id of a click style.
pub open spec fn click_style_id(s: ClickStyle) -> Seq<char> {
    match s {
        ClickStyle::Single => "single"@,
        ClickStyle::Double => "double"@,
    }
}

/// The click style with id `id`, if any.
pub open spec fn click_style_of(id: Seq<char>) -> Option<ClickStyle> {
    if id == "single"@ {
        Some(ClickStyle::Single)
    } else if id == "double"@ {
        Some(ClickStyle::Double)
    } else {
        None
    }
}

impl TaskbarPosition {
    /// The id the position's button sends.
    pub fn id(&self) -> (s: &'static str)
        ensures
            s@ == taskbar_pos_id(*self),
    {
        match self {
            TaskbarPosition::Bottom => "bottom",
            TaskbarPosition::Top => "top",
            TaskbarPosition::Left => "left",
            TaskbarPosition::Right => "right",
        }
    }

    /// The position a button id stands for.
    pub fn from_id(id: &str) -> (p: Option<Self>)
        ensures
            p == taskbar_pos_of(id@),
    {
        if str_eq(id, "bottom") {
            Some(TaskbarPosition::Bottom)
        } else if str_eq(id, "top") {
            Some(TaskbarPosition::Top)
        } else if str_eq(id, "left") {
            Some(TaskbarPosition::Left)
        } else if str_eq(id, "right") {
            Some(TaskbarPosition::Right)
        } else {
            None
        }
    }

    /// The positions in the order the General tab offers them.
    pub fn all() -> (v: Vec<TaskbarPosition>)
        ensures
            v@ == seq![
                TaskbarPosition::Bottom,
                TaskbarPosition::Top,
                TaskbarPosition::Left,
                TaskbarPosition::Right,
            ],
    {
        let mut v: Vec<TaskbarPosition> = Vec::new();
        v.push(TaskbarPosition::Bottom);
        v.push(TaskbarPosition::Top);
        v.push(TaskbarPosition::Left);
        v.push(TaskbarPosition::Right);
        assert(v@ =~= seq![
            TaskbarPosition::Bottom,
            TaskbarPosition::Top,
            TaskbarPosition::Left,
            TaskbarPosition::Right,
        ]);
        v
    }
}

impl FocusPolicy {
    /// The id the policy's button sends.
    pub fn id(&self) -> (s: &'static str)
        ensures
            s@ == focus_policy_id(*self),
    {
        match self {
            FocusPolicy::Click => "click",
            FocusPolicy::FocusFollowsMouse => "focus_follows_mouse",
            FocusPolicy::StrictFollowsMouse => "strict_follows_mouse",
        }
    }

    /// The policy a button id stands for.
    pub fn from_id(id: &str) -> (p: Option<Self>)
        ensures
            p == focus_policy_of(id@),
    {
        if str_eq(id, "click") {
            Some(FocusPolicy::Click)
        } else if str_eq(id, "focus_follows_mouse") {
            Some(FocusPolicy::FocusFollowsMouse)
        } else if str_eq(id, "strict_follows_mouse") {
            Some(FocusPolicy::StrictFollowsMouse)
        } else {
            None
        }
    }

    /// The policies in the order the Window tab offers them.
    pub fn all() -> (v: Vec<FocusPolicy>)
        ensures
            v@ == seq![FocusPolicy::Click, FocusPolicy::FocusFollowsMouse, FocusPolicy::StrictFollowsMouse],
    {
        let mut v: Vec<FocusPolicy> = Vec::new();
        v.push(FocusPolicy::Click);
        v.push(FocusPolicy::FocusFollowsMouse);
        v.push(FocusPolicy::StrictFollowsMouse);
        assert(v@ =~= seq![FocusPolicy::Click, FocusPolicy::FocusFollowsMouse, FocusPolicy::StrictFollowsMouse]);
        v
    }
}

impl TitleBarStyle {
    /// The id the style's button sends.
    pub fn id(&self) -> (s: &'static str)
        ensures
            s@ == title_bar_id(*self),
    {
        match self {
            TitleBarStyle::Full => "full",
            TitleBarStyle::Compact => "compact",
            TitleBarStyle::Minimal => "minimal",
            TitleBarStyle::Hidden => "hidden",
        }
    }

    /// The style a button id stands for.
    pub fn from_id(id: &str) -> (p: Option<Self>)
        ensures
            p == title_bar_of(id@),
    {
        if str_eq(id, "full") {
            Some(TitleBarStyle::Full)
        } else if str_eq(id, "compact") {
            Some(TitleBarStyle::Compact)
        } else if str_eq(id, "minimal") {
            Some(TitleBarStyle::Minimal)
        } else if str_eq(id, "hidden") {
            Some(TitleBarStyle::Hidden)
        } else {
            None
        }
    }

    /// The styles in the order the Window tab offers them.
    pub fn all() -> (v: Vec<TitleBarStyle>)
        ensures
            v@ == seq![
                TitleBarStyle::Full,
                TitleBarStyle::Compact,
                TitleBarStyle::Minimal,
                TitleBarStyle::Hidden,
            ],
    {
        let mut v: Vec<TitleBarStyle> = Vec::new();
        v.push(TitleBarStyle::Full);
        v.push(TitleBarStyle::Compact);
        v.push(TitleBarStyle::Minimal);
        v.push(TitleBarStyle::Hidden);
        assert(v@ =~= seq![
            TitleBarStyle::Full,
            TitleBarStyle::Compact,
            TitleBarStyle::Minimal,
            TitleBarStyle::Hidden,
        ]);
        v
    }
}

impl ClickStyle {
    /// The id the style's button sends.
    pub fn id(&self) -> (s: &'static str)
        ensures
            s@ == click_style_id(*self),
    {
        match self {
            ClickStyle::Single => "single",
            ClickStyle::Double => "double",
        }
    }

    /// The style a button id stands for.
    pub fn from_id(id: &str) -> (p: Option<Self>)
        ensures
            p == click_style_of(id@),
    {
        if str_eq(id, "single") {
            Some(ClickStyle::Single)
        } else if str_eq(id, "double") {
            Some(ClickStyle::Double)
        } else {
            None
        }
    }
}

/// The characters of the choice ids.
proof fn reveal_choice_ids()
    ensures
        "bottom"@ =~= seq!['b', 'o', 't', 't', 'o', 'm'],
        "top"@ =~= seq!['t', 'o', 'p'],
        "left"@ =~= seq!['l', 'e', 'f', 't'],
        "right"@ =~= seq!['r', 'i', 'g', 'h', 't'],
        "click"@ =~= seq!['c', 'l', 'i', 'c', 'k'],
        "focus_follows_mouse"@ =~= seq!['f', 'o', 'c', 'u', 's', '_', 'f', 'o', 'l', 'l', 'o', 'w', 's', '_', 'm', 'o', 'u', 's', 'e'],
        "strict_follows_mouse"@ =~= seq!['s', 't', 'r', 'i', 'c', 't', '_', 'f', 'o', 'l', 'l', 'o', 'w', 's', '_', 'm', 'o', 'u', 's', 'e'],
        "full"@ =~= seq!['f', 'u', 'l', 'l'],
        "compact"@ =~= seq!['c', 'o', 'm', 'p', 'a', 'c', 't'],
        "minimal"@ =~= seq!['m', 'i', 'n', 'i', 'm', 'a', 'l'],
        "hidden"@ =~= seq!['h', 'i', 'd', 'd', 'e', 'n'],
        "single"@ =~= seq!['s', 'i', 'n', 'g', 'l', 'e'],
        "double"@ =~= seq!['d', 'o', 'u', 'b', 'l', 'e'],
{
    reveal_strlit("bottom");
    reveal_strlit("top");
    reveal_strlit("left");
    reveal_strlit("right");
    reveal_strlit("click");
    reveal_strlit("focus_follows_mouse");
    reveal_strlit("strict_follows_mouse");
    reveal_strlit("full");
    reveal_strlit("compact");
    reveal_strlit("minimal");
    reveal_strlit("hidden");
    reveal_strlit("single");
    reveal_strlit("double");
}

/// Each choice is found again by the id its button sends, and an id that finds a choice
/// is that choice's id.
pub proof fn law_choice_ids_round_trip(
    p: TaskbarPosition,
    f: FocusPolicy,
    t: TitleBarStyle,
    c: ClickStyle,
    id: Seq<char>,
)
    ensures
        taskbar_pos_of(taskbar_pos_id(p)) == Some(p),
        taskbar_pos_of(id) matches Some(q) ==> taskbar_pos_id(q) == id,
        focus_policy_of(focus_policy_id(f)) == Some(f),
        focus_policy_of(id) matches Some(g) ==> focus_policy_id(g) == id,
        title_bar_of(title_bar_id(t)) == Some(t),
        title_bar_of(id) matches Some(u) ==> title_bar_id(u) == id,
        click_style_of(click_style_id(c)) == Some(c),
        click_style_of(id) matches Some(d) ==> click_style_id(d) == id,
{
    reveal_choice_ids();
}


// ── Defaults ──────────────────────────────────────────────────────────────────

impl Default for TaskbarPosition {
    fn default() -> (d: Self)
        ensures
            d == TaskbarPosition::Bottom,
    {
        TaskbarPosition::Bottom
    }
}

impl Default for DisplayMode {
    fn default() -> (d: Self)
        ensures
            d == DisplayMode::Window,
    {
        DisplayMode::Window
    }
}

impl Default for SidebarPosition {
    fn default() -> (d: Self)
        ensures
            d == SidebarPosition::Left,
    {
        SidebarPosition::Left
    }
}

impl Default for TitleBarStyle {
    fn default() -> (d: Self)
        ensures
            d == TitleBarStyle::Full,
    {
        TitleBarStyle::Full
    }
}

impl Default for ResizeEdgeSize {
    fn default() -> (d: Self)
        ensures
            d == ResizeEdgeSize::Normal,
    {
        ResizeEdgeSize::Normal
    }
}

impl Default for DoubleClickAction {
    fn default() -> (d: Self)
        ensures
            d == DoubleClickAction::Maximize,
    {
        DoubleClickAction::Maximize
    }
}

impl Default for FocusPolicy {
    fn default() -> (d: Self)
        ensures
            d == FocusPolicy::Click,
    {
        FocusPolicy::Click
    }
}

impl Default for ClickStyle {
    fn default() -> (d: Self)
        ensures
            d == ClickStyle::Double,
    {
        ClickStyle::Double
    }
}

impl Default for PanelArrangement {
    fn default() -> (d: Self)
        ensures
            d == PanelArrangement::Default,
    {
        PanelArrangement::Default
    }
}

impl Default for DesktopTab {
    fn default() -> (d: Self)
        ensures
            d == DesktopTab::General,
    {
        DesktopTab::General
    }
}

} // verus!
