//! Verified core of the FreeSynergy desktop: the state, rules and text
//! transformations behind the shell, its settings and its managers.
use vstd::prelude::*;

pub mod text;
pub mod theme_loader;
pub mod taskbar;
pub mod launcher;
pub mod notification;
pub mod chrome;
pub mod header;
pub mod lifecycle;
pub mod help;
pub mod widgets;
pub mod profile;
pub mod accounts;
pub mod desktop_settings;
pub mod shortcuts;
pub mod db;
pub mod builtin_apps;
pub mod ai;
pub mod language;
pub mod shell;
pub mod bots;
pub mod containers;
pub mod store;
pub mod desktop;
pub mod sections;
pub mod dep_graph;
pub mod help_chat;
pub mod sysinfo;
pub mod sidebar;
pub mod picker;

verus! {
} // verus!
