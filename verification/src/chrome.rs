//! Small pieces of shell chrome state: split panel, web taskbar, spinners, app modes
//! and the multiwindow handle.
use vstd::prelude::*;

verus! {

// ── SplitState ────────────────────────────────────────────────────────────────

/// State of the split panel.
#[derive(Clone, Copy, PartialEq, Eq, Debug, Structural)]
pub enum SplitState {
    /// Master collapsed — only detail visible.
    Collapsed,
    /// Both panes visible, resizable via drag handle.
    Half,
    /// Master full-width — detail hidden.
    FullRight,
}

impl Default for SplitState {
    fn default() -> (s: Self)
        ensures
            s == SplitState::Half,
    {
        SplitState::Half
    }
}

/// The state that follows `s` in the cycle Collapsed → Half → FullRight → Collapsed.
pub open spec fn split_next(s: SplitState) -> SplitState {
    match s {
        SplitState::Collapsed => SplitState::Half,
        SplitState::Half => SplitState::FullRight,
        SplitState::FullRight => SplitState::Collapsed,
    }
}

impl SplitState {
    /// Cycle: Collapsed → Half → `FullRight` → Collapsed.
    pub fn next(&self) -> (n: Self)
        ensures
            n == split_next(*self),
    {
        match self {
            SplitState::Collapsed => SplitState::Half,
            SplitState::Half => SplitState::FullRight,
            SplitState::FullRight => SplitState::Collapsed,
        }
    }
}

/// Cycling three times returns to the starting split state, and no fewer steps do.
pub proof fn law_split_cycle(s: SplitState)
    ensures
        split_next(split_next(split_next(s))) == s,
        split_next(s) != s,
        split_next(split_next(s)) != s,
{
}

// ── WebTaskbarState ───────────────────────────────────────────────────────────

/// Visibility state for the bottom taskbar in the web layout.
#[derive(Clone, Copy, PartialEq, Eq, Debug, Structural)]
pub enum WebTaskbarState {
    /// Always visible at the bottom.
    Fixed,
    /// Slides up to reveal more content.
    SlideUp,
    /// Hidden — only drag handle is visible.
    Hidden,
}

impl Default for WebTaskbarState {
    fn default() -> (s: Self)
        ensures
            s == WebTaskbarState::Fixed,
    {
        WebTaskbarState::Fixed
    }
}

/// The state that follows `s` in the cycle Fixed → SlideUp → Hidden → Fixed.
pub open spec fn web_taskbar_next(s: WebTaskbarState) -> WebTaskbarState {
    match s {
        WebTaskbarState::Fixed => WebTaskbarState::SlideUp,
        WebTaskbarState::SlideUp => WebTaskbarState::Hidden,
        WebTaskbarState::Hidden => WebTaskbarState::Fixed,
    }
}

impl WebTaskbarState {
    /// Cycle: Fixed → `SlideUp` → Hidden → Fixed.
    pub fn next(self) -> (n: Self)
        ensures
            n == web_taskbar_next(self),
    {
        match self {
            WebTaskbarState::Fixed => WebTaskbarState::SlideUp,
            WebTaskbarState::SlideUp => WebTaskbarState::Hidden,
            WebTaskbarState::Hidden => WebTaskbarState::Fixed,
        }
    }
}

/// Cycling three times returns to the starting web taskbar state, and no fewer steps do.
pub proof fn law_web_taskbar_cycle(s: WebTaskbarState)
    ensures
        web_taskbar_next(web_taskbar_next(web_taskbar_next(s))) == s,
        web_taskbar_next(s) != s,
        web_taskbar_next(web_taskbar_next(s)) != s,
{
}

/// Marker type for the web desktop layout.
pub struct WebDesktop;

// ── Spinners ──────────────────────────────────────────────────────────────────

/// Size hint for a loading spinner.
#[derive(Clone, Copy, Debug, PartialEq, Eq, Structural)]
pub enum SpinnerSize {
    Sm,
    Md,
    Lg,
}

impl Default for SpinnerSize {
    fn default() -> (s: Self)
        ensures
            s == SpinnerSize::Md,
    {
        SpinnerSize::Md
    }
}

/// Marker type for a loading spinner.
pub struct LoadingSpinner;

/// Marker type for a loading overlay.
pub struct LoadingOverlay;

// ── AppMode ───────────────────────────────────────────────────────────────────

/// How an app is rendered.
#[derive(Clone, Copy, PartialEq, Eq, Debug, Structural)]
pub enum AppMode {
    /// Embedded inside a window frame in the desktop shell.
    Window,
    /// Running as its own top-level OS window.
    Standalone,
    /// Running inside a terminal.
    Tui,
}

impl Default for AppMode {
    fn default() -> (m: Self)
        ensures
            m == AppMode::Window,
    {
        AppMode::Window
    }
}

// ── Multiwindow ───────────────────────────────────────────────────────────────

/// Handle for opening app windows. Window opening goes through the shell's
/// `OpenApp` message; these methods have no effect of their own.
#[derive(Clone, Copy)]
pub struct MultiwindowHandle;

impl MultiwindowHandle {
    pub fn open_managers(&self) {
    }

    pub fn open_settings(&self) {
    }

    pub fn open_profile(&self) {
    }

    pub fn open_store(&self) {
    }

    pub fn open_builder(&self) {
    }
}

/// Returns a `MultiwindowHandle`.
pub fn use_multiwindow() -> (h: MultiwindowHandle)
    ensures
        h == MultiwindowHandle,
{
    MultiwindowHandle
}

} // verus!
