//! The manager panels' pickers: a list of choices (themes, languages) with the one the
//! user marked and whether that choice has been applied.
use vstd::prelude::*;
use crate::language::{marker_text, selection_marker};
use crate::text::{owned, str_eq};

verus! {

/// An installed theme as the theme picker lists it.
#[derive(Debug, Clone)]
pub struct ThemeChoice {
    pub id: String,
    pub display_name: String,
    pub is_dark: bool,
}

/// The state of a picker panel: the id the user marked, and whether it has been applied
/// since it was marked.
#[derive(Debug, Clone)]
pub struct PickerState {
    pub selected: String,
    pub saved: bool,
}

/// One row of the theme picker: the marker (filled when marked), the day or night icon,
/// the theme's name and its mode.
#[derive(Debug)]
pub struct ThemeRow {
    pub id: String,
    pub marked: bool,
    pub marker: &'static str,
    pub icon: &'static str,
    pub name: String,
    pub mode: &'static str,
}

/// The mode badge of a theme.
pub open spec fn mode_text(dark: bool) -> Seq<char> {
    if dark {
        "Dark"@
    } else {
        "Light"@
    }
}

/// The icon of a theme.
pub open spec fn mode_icon(dark: bool) -> Seq<char> {
    if dark {
        "🌙"@
    } else {
        "☀"@
    }
}

impl PickerState {
    /// A picker with the active choice marked and nothing applied yet.
    pub fn new(active_id: &str) -> (p: Self)
        ensures
            p.selected@ == active_id@,
            !p.saved,
    {
        PickerState { selected: owned(active_id), saved: false }
    }

    /// Marks the choice `id`; the "applied" note goes away.
    pub fn select(&mut self, id: &str)
        ensures
            final(self).selected@ == id@,
            !final(self).saved,
    {
        self.selected = owned(id);
        self.saved = false;
    }

    /// Applies the marked choice: returns its id for the manager to make active, and the
    /// panel shows that it was applied.
    pub fn apply(&mut self) -> (id: String)
        ensures
            id@ == old(self).selected@,
            final(self).selected@ == old(self).selected@,
            final(self).saved,
    {
        self.saved = true;
        self.selected.clone()
    }

    /// The rows of the theme picker, one per theme in order.
    pub fn theme_rows(&self, themes: &Vec<ThemeChoice>) -> (rows: Vec<ThemeRow>)
        ensures
            rows@.len() == themes@.len(),
            forall|i: int|
                0 <= i < rows@.len() ==> {
                    let r = #[trigger] rows@[i];
                    let t = themes@[i];
                    &&& r.id@ == t.id@
                    &&& r.marked == (t.id@ == self.selected@)
                    &&& r.marker@ == marker_text(r.marked)
                    &&& r.icon@ == mode_icon(t.is_dark)
                    &&& r.name@ == t.display_name@
                    &&& r.mode@ == mode_text(t.is_dark)
                },
    {
        let mut rows: Vec<ThemeRow> = Vec::new();
        let mut i: usize = 0;
        while i < themes.len()
            invariant
                i <= themes@.len(),
                rows@.len() == i,
                forall|k: int|
                    0 <= k < i ==> {
                        let r = #[trigger] rows@[k];
                        let t = themes@[k];
                        &&& r.id@ == t.id@
                        &&& r.marked == (t.id@ == self.selected@)
                        &&& r.marker@ == marker_text(r.marked)
                        &&& r.icon@ == mode_icon(t.is_dark)
                        &&& r.name@ == t.display_name@
                        &&& r.mode@ == mode_text(t.is_dark)
                    },
            decreases themes@.len() - i,
        {
            let t = &themes[i];
            let marked = str_eq(t.id.as_str(), self.selected.as_str());
            let row = ThemeRow {
                id: t.id.clone(),
                marked,
                marker: selection_marker(marked),
                icon: if t.is_dark { "🌙" } else { "☀" },
                name: t.display_name.clone(),
                mode: if t.is_dark { "Dark" } else { "Light" },
            };
            rows.push(row);
            i += 1;
        }
        rows
    }
}

} // verus!
