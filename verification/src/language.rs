//! Language settings: the locale catalog entry, and the list of installed interface
//! languages (the built-in ones first, then the packs installed from the Store).
use vstd::prelude::*;
use crate::text::{concat, decimal, decimal_string, owned, str_eq};

verus! {

/// A single locale entry from the Store's locale catalog.
#[derive(Debug, Clone)]
pub struct LocaleEntry {
    pub code: String,
    pub name: String,
    pub version: String,
    pub completeness: u8,
    pub direction: String,
    pub path: Option<String>,
}

/// The language settings section.
pub struct LanguageSettings;

/// One selectable interface language.
#[derive(Debug, Clone)]
pub struct LangEntry {
    pub code: String,
    pub name: String,
    /// Built in: always available, cannot be removed.
    pub builtin: bool,
}

/// A language entry as plain values.
pub struct LangEntryView {
    pub code: Seq<char>,
    pub name: Seq<char>,
    pub builtin: bool,
}

impl View for LangEntry {
    type V = LangEntryView;

    open spec fn view(&self) -> LangEntryView {
        LangEntryView { code: self.code@, name: self.name@, builtin: self.builtin }
    }
}

/// The views of `(code, name)` pairs.
pub open spec fn pair_views(v: Seq<(String, String)>) -> Seq<(Seq<char>, Seq<char>)> {
    v.map_values(|p: (String, String)| (p.0@, p.1@))
}

/// The views of language entries.
pub open spec fn lang_views(v: Seq<LangEntry>) -> Seq<LangEntryView> {
    v.map_values(|e: LangEntry| e@)
}

/// The built-in languages: English.
pub open spec fn spec_builtin_languages() -> Seq<(Seq<char>, Seq<char>)> {
    seq![("en"@, "English"@)]
}

/// The built-in languages as `(code, native name)` pairs.
pub fn builtin_languages() -> (v: Vec<(String, String)>)
    ensures
        pair_views(v@) == spec_builtin_languages(),
{
    let mut v: Vec<(String, String)> = Vec::new();
    v.push((owned("en"), owned("English")));
    assert(pair_views(v@) =~= spec_builtin_languages());
    v
}

/// Whether `code` is the code of one of `langs`.
pub open spec fn has_code(langs: Seq<(Seq<char>, Seq<char>)>, code: Seq<char>) -> bool {
    exists|k: int| 0 <= k < langs.len() && #[trigger] langs[k].0 == code
}

/// The built-in entries of `builtins[..n]`.
pub open spec fn builtin_entries_upto(builtins: Seq<(Seq<char>, Seq<char>)>, n: int) -> Seq<
    LangEntryView,
>
    decreases n,
{
    if n <= 0 {
        Seq::empty()
    } else {
        builtin_entries_upto(builtins, n - 1).push(
            LangEntryView { code: builtins[n - 1].0, name: builtins[n - 1].1, builtin: true },
        )
    }
}

/// The installed packs among `packs[..n]` whose code is not built in.
pub open spec fn pack_entries_upto(
    builtins: Seq<(Seq<char>, Seq<char>)>,
    packs: Seq<(Seq<char>, Seq<char>)>,
    n: int,
) -> Seq<LangEntryView>
    decreases n,
{
    if n <= 0 {
        Seq::empty()
    } else {
        let rest = pack_entries_upto(builtins, packs, n - 1);
        if has_code(builtins, packs[n - 1].0) {
            rest
        } else {
            rest.push(LangEntryView { code: packs[n - 1].0, name: packs[n - 1].1, builtin: false })
        }
    }
}

/// The installed languages: each built-in language, then each Store pack whose code is
/// not a built-in code.
pub open spec fn installed_list(
    builtins: Seq<(Seq<char>, Seq<char>)>,
    packs: Seq<(Seq<char>, Seq<char>)>,
) -> Seq<LangEntryView> {
    builtin_entries_upto(builtins, builtins.len() as int) + pack_entries_upto(
        builtins,
        packs,
        packs.len() as int,
    )
}

fn code_in(langs: &Vec<(String, String)>, code: &str) -> (b: bool)
    ensures
        b == has_code(pair_views(langs@), code@),
{
    let ghost vs = pair_views(langs@);
    let mut i: usize = 0;
    while i < langs.len()
        invariant
            i <= langs@.len(),
            vs == pair_views(langs@),
            forall|k: int| 0 <= k < i ==> vs[k].0 != code@,
        decreases langs@.len() - i,
    {
        if str_eq(langs[i].0.as_str(), code) {
            assert(vs[i as int].0 == code@);
            return true;
        }
        i += 1;
    }
    false
}

/// The installed interface languages: the `builtins` (marked built in), then the Store
/// language `packs` whose code is not a built-in code.
pub fn installed_languages(builtins: &Vec<(String, String)>, packs: &Vec<(String, String)>) -> (v:
    Vec<LangEntry>)
    ensures
        lang_views(v@) == installed_list(pair_views(builtins@), pair_views(packs@)),
{
    let ghost b = pair_views(builtins@);
    let ghost p = pair_views(packs@);
    let mut v: Vec<LangEntry> = Vec::new();
    let mut i: usize = 0;
    while i < builtins.len()
        invariant
            i <= builtins@.len(),
            b == pair_views(builtins@),
            lang_views(v@) == builtin_entries_upto(b, i as int),
        decreases builtins@.len() - i,
    {
        let ghost before = v@;
        v.push(
            LangEntry {
                code: owned(builtins[i].0.as_str()),
                name: owned(builtins[i].1.as_str()),
                builtin: true,
            },
        );
        assert(lang_views(v@) =~= lang_views(before).push(
            LangEntryView { code: b[i as int].0, name: b[i as int].1, builtin: true },
        ));
        i += 1;
    }
    let ghost first = lang_views(v@);
    let mut k: usize = 0;
    while k < packs.len()
        invariant
            k <= packs@.len(),
            b == pair_views(builtins@),
            p == pair_views(packs@),
            first == builtin_entries_upto(b, builtins@.len() as int),
            lang_views(v@) == first + pack_entries_upto(b, p, k as int),
        decreases packs@.len() - k,
    {
        if !code_in(builtins, packs[k].0.as_str()) {
            let ghost before = v@;
            v.push(
                LangEntry {
                    code: owned(packs[k].0.as_str()),
                    name: owned(packs[k].1.as_str()),
                    builtin: false,
                },
            );
            assert(lang_views(v@) =~= lang_views(before).push(
                LangEntryView { code: p[k as int].0, name: p[k as int].1, builtin: false },
            ));
            assert(lang_views(v@) =~= first + pack_entries_upto(b, p, k + 1));
        }
        k += 1;
    }
    v
}

/// The label of a language in the list: built-in ones are marked `" (built-in)"`.
pub open spec fn lang_label(e: LangEntryView) -> Seq<char> {
    if e.builtin {
        e.name + " (built-in)"@
    } else {
        e.name
    }
}

impl LangEntry {
    /// The label shown in the language list.
    pub fn label(&self) -> (s: String)
        ensures
            s@ == lang_label(self@),
    {
        if self.builtin {
            concat(self.name.as_str(), " (built-in)")
        } else {
            owned(self.name.as_str())
        }
    }
}

/// State of the Language settings section: the selected language and the installed list.
#[derive(Debug, Clone)]
pub struct LanguageState {
    pub selected: String,
    pub installed: Vec<LangEntry>,
}

impl LanguageState {
    /// The section with the active language selected and the built-in languages followed
    /// by the installed Store packs.
    pub fn new(packs: &Vec<(String, String)>, active_language: String) -> (s: Self)
        ensures
            s.selected@ == active_language@,
            lang_views(s.installed@) == installed_list(spec_builtin_languages(), pair_views(packs@)),
    {
        let builtins = builtin_languages();
        LanguageState { selected: active_language, installed: installed_languages(&builtins, packs) }
    }

    /// Select the language with this code.
    pub fn select(&mut self, code: String)
        ensures
            final(self).selected@ == code@,
            lang_views(final(self).installed@) == lang_views(old(self).installed@),
    {
        self.selected = code;
    }
}

// ── The desktop's language list ───────────────────────────────────────────────

/// The languages the desktop's language list always offers, as `(code, native name)`.
pub open spec fn spec_desktop_languages() -> Seq<(Seq<char>, Seq<char>)> {
    seq![
        ("de"@, "Deutsch"@),
        ("en"@, "English"@),
        ("fr"@, "Français"@),
        ("es"@, "Español"@),
        ("it"@, "Italiano"@),
        ("pt"@, "Português"@),
    ]
}

/// The languages the desktop's language list always offers.
pub fn desktop_languages() -> (v: Vec<(String, String)>)
    ensures
        pair_views(v@) == spec_desktop_languages(),
{
    let mut v: Vec<(String, String)> = Vec::new();
    v.push((owned("de"), owned("Deutsch")));
    v.push((owned("en"), owned("English")));
    v.push((owned("fr"), owned("Français")));
    v.push((owned("es"), owned("Español")));
    v.push((owned("it"), owned("Italiano")));
    v.push((owned("pt"), owned("Português")));
    assert(pair_views(v@) =~= spec_desktop_languages());
    v
}

/// From how many entries on the language list scrolls.
pub const LIST_SCROLL_FROM: usize = 8;

/// The marker in front of a list row: filled for the selected row.
pub open spec fn marker_text(selected: bool) -> Seq<char> {
    if selected {
        "◉"@
    } else {
        "○"@
    }
}

/// The marker in front of a list row.
pub fn selection_marker(selected: bool) -> (s: &'static str)
    ensures
        s@ == marker_text(selected),
{
    if selected {
        "◉"
    } else {
        "○"
    }
}

/// The desktop's language list: the offered languages and the installed Store packs,
/// the selected code, and whether the hint on installing more languages is shown.
#[derive(Debug, Clone)]
pub struct LanguageList {
    pub entries: Vec<LangEntry>,
    pub selected: String,
    pub install_hint: bool,
}

impl LanguageList {
    /// The list for the installed language `packs`: the offered languages first, then
    /// each pack whose code they do not have; German selected, hint hidden.
    pub fn new(packs: &Vec<(String, String)>) -> (l: Self)
        ensures
            lang_views(l.entries@) == installed_list(spec_desktop_languages(), pair_views(packs@)),
            l.selected@ == "de"@,
            !l.install_hint,
    {
        let offered = desktop_languages();
        LanguageList {
            entries: installed_languages(&offered, packs),
            selected: owned("de"),
            install_hint: false,
        }
    }

    /// Selects the language with this code.
    pub fn select(&mut self, code: String)
        ensures
            final(self).selected@ == code@,
            lang_views(final(self).entries@) == lang_views(old(self).entries@),
            final(self).install_hint == old(self).install_hint,
    {
        self.selected = code;
    }

    /// Shows or hides the hint on installing more languages.
    pub fn toggle_install_hint(&mut self)
        ensures
            final(self).install_hint == !old(self).install_hint,
            final(self).selected == old(self).selected,
            lang_views(final(self).entries@) == lang_views(old(self).entries@),
    {
        self.install_hint = !self.install_hint;
    }

    /// Whether the list is long enough to scroll.
    pub fn scrolls(&self) -> (b: bool)
        ensures
            b == (self.entries@.len() >= LIST_SCROLL_FROM),
    {
        self.entries.len() >= LIST_SCROLL_FROM
    }

    /// The count beside the list's title: `"({n} installed)"`.
    pub fn count_label(&self) -> (s: String)
        ensures
            s@ == "("@ + decimal(self.entries@.len()) + " installed)"@,
    {
        let n = decimal_string(self.entries.len() as u64);
        let a = concat("(", n.as_str());
        concat(a.as_str(), " installed)")
    }

    /// Whether the entry at `idx` is the selected one.
    pub fn is_selected(&self, idx: usize) -> (b: bool)
        requires
            idx < self.entries@.len(),
        ensures
            b == (self.entries@[idx as int].code@ == self.selected@),
    {
        str_eq(self.entries[idx].code.as_str(), self.selected.as_str())
    }
}

/// The Browser settings section.
pub struct BrowserSettings;

// ── Laws ──────────────────────────────────────────────────────────────────────

proof fn lemma_builtin_entries(builtins: Seq<(Seq<char>, Seq<char>)>, n: int)
    requires
        0 <= n <= builtins.len(),
    ensures
        builtin_entries_upto(builtins, n).len() == n,
        forall|k: int|
            0 <= k < n ==> #[trigger] builtin_entries_upto(builtins, n)[k] == (LangEntryView {
                code: builtins[k].0,
                name: builtins[k].1,
                builtin: true,
            }),
    decreases n,
{
    if n > 0 {
        lemma_builtin_entries(builtins, n - 1);
    }
}

proof fn lemma_pack_entries(builtins: Seq<(Seq<char>, Seq<char>)>, packs: Seq<(Seq<char>, Seq<char>)>, n: int)
    requires
        0 <= n <= packs.len(),
    ensures
        forall|k: int|
            0 <= k < pack_entries_upto(builtins, packs, n).len() ==> {
                let e = #[trigger] pack_entries_upto(builtins, packs, n)[k];
                !e.builtin && !has_code(builtins, e.code)
            },
    decreases n,
{
    if n > 0 {
        lemma_pack_entries(builtins, packs, n - 1);
        let rest = pack_entries_upto(builtins, packs, n - 1);
        let cur = pack_entries_upto(builtins, packs, n);
        assert forall|k: int| 0 <= k < cur.len() implies !(#[trigger] cur[k]).builtin && !has_code(
            builtins,
            cur[k].code,
        ) by {
            if k < rest.len() {
                assert(cur[k] == rest[k]);
            }
        }
    }
}

/// The list starts with every built-in language, in order and marked built in; every
/// later entry is a Store pack whose code is none of the built-in codes.
pub proof fn law_builtins_first_packs_distinct(
    builtins: Seq<(Seq<char>, Seq<char>)>,
    packs: Seq<(Seq<char>, Seq<char>)>,
)
    ensures
        ({
            let l = installed_list(builtins, packs);
            &&& l.len() >= builtins.len()
            &&& forall|k: int|
                0 <= k < builtins.len() ==> #[trigger] l[k] == (LangEntryView {
                    code: builtins[k].0,
                    name: builtins[k].1,
                    builtin: true,
                })
            &&& forall|k: int|
                builtins.len() <= k < l.len() ==> !(#[trigger] l[k]).builtin && !has_code(
                    builtins,
                    l[k].code,
                )
        }),
{
    lemma_builtin_entries(builtins, builtins.len() as int);
    lemma_pack_entries(builtins, packs, packs.len() as int);
    let b = builtin_entries_upto(builtins, builtins.len() as int);
    let q = pack_entries_upto(builtins, packs, packs.len() as int);
    let l = installed_list(builtins, packs);
    assert forall|k: int| builtins.len() <= k < l.len() implies !(#[trigger] l[k]).builtin && !has_code(
        builtins,
        l[k].code,
    ) by {
        assert(l[k] == q[k - b.len()]);
    }
    assert forall|k: int| 0 <= k < builtins.len() implies #[trigger] l[k] == (LangEntryView {
        code: builtins[k].0,
        name: builtins[k].1,
        builtin: true,
    }) by {
        assert(l[k] == b[k]);
    }
}

} // verus!
