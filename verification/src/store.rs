//! Store: package kinds and tabs, the catalog filter, the install wizard's state machine
//! with the download each package kind needs, and the list of installed modules.
use vstd::prelude::*;
use crate::containers::{find_label, label_value, label_views, ContainerInfo};
use crate::text::{
    concat, contains_seq, decimal, decimal_string, lowercase, owned, str_contains, str_eq,
    strip_trailing, to_lowercase, trim_end_char,
};

verus! {

// ── Package kinds and tabs ────────────────────────────────────────────────────

/// The kind of a Store package.
#[derive(Clone, Copy, Debug, PartialEq, Eq, Structural)]
pub enum PackageKind {
    App,
    Manager,
    Plugin,
    Language,
    Theme,
    Widget,
    BotCommand,
    Bridge,
    Task,
}

/// The Store's tabs.
#[derive(Clone, Copy, Debug, PartialEq, Eq, Structural)]
pub enum StoreTab {
    All,
    Plugins,
    Languages,
    Themes,
    Widgets,
    Bots,
    Bridges,
    Tasks,
    Installed,
    Updates,
}

/// The package kind a tab shows (`None` = all kinds).
pub open spec fn tab_kind(t: StoreTab) -> Option<PackageKind> {
    match t {
        StoreTab::Plugins => Some(PackageKind::Plugin),
        StoreTab::Languages => Some(PackageKind::Language),
        StoreTab::Themes => Some(PackageKind::Theme),
        StoreTab::Widgets => Some(PackageKind::Widget),
        StoreTab::Bots => Some(PackageKind::BotCommand),
        StoreTab::Bridges => Some(PackageKind::Bridge),
        StoreTab::Tasks => Some(PackageKind::Task),
        StoreTab::All | StoreTab::Installed | StoreTab::Updates => None,
    }
}

/// The label of a tab.
pub open spec fn tab_label(t: StoreTab) -> Seq<char> {
    match t {
        StoreTab::All => "All"@,
        StoreTab::Plugins => "Plugins"@,
        StoreTab::Languages => "Languages"@,
        StoreTab::Themes => "Themes"@,
        StoreTab::Widgets => "Widgets"@,
        StoreTab::Bots => "Bots"@,
        StoreTab::Bridges => "Bridges"@,
        StoreTab::Tasks => "Tasks"@,
        StoreTab::Installed => "Installed"@,
        StoreTab::Updates => "Updates"@,
    }
}

impl StoreTab {
    /// The package kind this tab shows (`None` = show all).
    pub fn kind_filter(&self) -> (k: Option<PackageKind>)
        ensures
            k == tab_kind(*self),
    {
        match self {
            StoreTab::Plugins => Some(PackageKind::Plugin),
            StoreTab::Languages => Some(PackageKind::Language),
            StoreTab::Themes => Some(PackageKind::Theme),
            StoreTab::Widgets => Some(PackageKind::Widget),
            StoreTab::Bots => Some(PackageKind::BotCommand),
            StoreTab::Bridges => Some(PackageKind::Bridge),
            StoreTab::Tasks => Some(PackageKind::Task),
            StoreTab::All | StoreTab::Installed | StoreTab::Updates => None,
        }
    }

    /// The tab's label.
    pub fn label(&self) -> (s: &'static str)
        ensures
            s@ == tab_label(*self),
    {
        match self {
            StoreTab::All => "All",
            StoreTab::Plugins => "Plugins",
            StoreTab::Languages => "Languages",
            StoreTab::Themes => "Themes",
            StoreTab::Widgets => "Widgets",
            StoreTab::Bots => "Bots",
            StoreTab::Bridges => "Bridges",
            StoreTab::Tasks => "Tasks",
            StoreTab::Installed => "Installed",
            StoreTab::Updates => "Updates",
        }
    }
}

/// The browsing tabs, in display order (Installed and Updates follow separately).
pub open spec fn spec_browse_tabs() -> Seq<StoreTab> {
    seq![
        StoreTab::All,
        StoreTab::Plugins,
        StoreTab::Languages,
        StoreTab::Themes,
        StoreTab::Widgets,
        StoreTab::Bots,
        StoreTab::Bridges,
        StoreTab::Tasks,
    ]
}

/// The browsing tabs, in display order.
pub fn browse_tabs() -> (v: Vec<StoreTab>)
    ensures
        v@ == spec_browse_tabs(),
{
    let v = vec![
        StoreTab::All,
        StoreTab::Plugins,
        StoreTab::Languages,
        StoreTab::Themes,
        StoreTab::Widgets,
        StoreTab::Bots,
        StoreTab::Bridges,
        StoreTab::Tasks,
    ];
    assert(v@ =~= spec_browse_tabs());
    v
}

// ── Catalog entries and the browser filter ────────────────────────────────────

/// A package as the Store shows it.
#[derive(Clone, Debug)]
pub struct PackageEntry {
    pub id: String,
    pub name: String,
    pub description: String,
    pub version: String,
    pub category: String,
    pub kind: PackageKind,
    pub tags: Vec<String>,
    /// Path of the package in the Store repository, if it is not the default one.
    pub store_path: Option<String>,
}

/// A package as plain values.
pub struct PackageEntryView {
    pub id: Seq<char>,
    pub name: Seq<char>,
    pub description: Seq<char>,
    pub version: Seq<char>,
    pub category: Seq<char>,
    pub kind: PackageKind,
    pub tags: Seq<Seq<char>>,
    pub store_path: Option<Seq<char>>,
}

impl View for PackageEntry {
    type V = PackageEntryView;

    open spec fn view(&self) -> PackageEntryView {
        PackageEntryView {
            id: self.id@,
            name: self.name@,
            description: self.description@,
            version: self.version@,
            category: self.category@,
            kind: self.kind,
            tags: self.tags@.map_values(|t: String| t@),
            store_path: match self.store_path {
                Some(p) => Some(p@),
                None => None,
            },
        }
    }
}

/// The views of a list of packages.
pub open spec fn package_views(v: Seq<PackageEntry>) -> Seq<PackageEntryView> {
    v.map_values(|p: PackageEntry| p@)
}

/// A package matches the lowercased query `q` when `q` is empty or occurs in its
/// lowercased name, description or category, and its kind is the tab's kind (if any).
pub open spec fn package_matches(p: PackageEntryView, q: Seq<char>, kind: Option<PackageKind>) -> bool {
    let text = q.len() == 0 || contains_seq(to_lowercase(p.name), q) || contains_seq(
        to_lowercase(p.description),
        q,
    ) || contains_seq(to_lowercase(p.category), q);
    let of_kind = match kind {
        Some(k) => p.kind == k,
        None => true,
    };
    text && of_kind
}

/// The packages of `ps` that match, in order.
pub open spec fn matching_packages(ps: Seq<PackageEntryView>, q: Seq<char>, kind: Option<PackageKind>) -> Seq<
    PackageEntryView,
>
    decreases ps.len(),
{
    if ps.len() == 0 {
        Seq::empty()
    } else {
        let m = matching_packages(ps.drop_last(), q, kind);
        if package_matches(ps.last(), q, kind) {
            m.push(ps.last())
        } else {
            m
        }
    }
}

/// With no search text and no kind filter every package is kept.
proof fn lemma_no_filter_keeps_all(ps: Seq<PackageEntryView>)
    ensures
        matching_packages(ps, Seq::empty(), None) == ps,
    decreases ps.len(),
{
    if ps.len() > 0 {
        lemma_no_filter_keeps_all(ps.drop_last());
        assert(ps.drop_last().push(ps.last()) =~= ps);
    }
}

proof fn lemma_matching_packages(ps: Seq<PackageEntryView>, q: Seq<char>, kind: Option<PackageKind>)
    ensures
        forall|i: int|
            0 <= i < ps.len() && package_matches(ps[i], q, kind) ==> matching_packages(ps, q, kind).contains(
                #[trigger] ps[i],
            ),
        forall|x: PackageEntryView| #[trigger] matching_packages(ps, q, kind).contains(x) ==> ps.contains(x)
            && package_matches(x, q, kind),
    decreases ps.len(),
{
    if ps.len() > 0 {
        let t = ps.drop_last();
        lemma_matching_packages(t, q, kind);
        let m = matching_packages(t, q, kind);
        let r = matching_packages(ps, q, kind);
        assert forall|i: int| 0 <= i < ps.len() && package_matches(ps[i], q, kind) implies r.contains(#[trigger] ps[i]) by {
            if i < t.len() {
                assert(ps[i] == t[i]);
                assert(m.contains(t[i]));
                let j = choose|j: int| 0 <= j < m.len() && m[j] == t[i];
                if package_matches(ps.last(), q, kind) {
                    assert(r[j] == m[j]);
                }
            } else {
                assert(r[m.len() as int] == ps[i]);
            }
        }
        assert forall|x: PackageEntryView| #[trigger] r.contains(x) implies ps.contains(x) && package_matches(x, q, kind) by {
            let j = choose|j: int| 0 <= j < r.len() && r[j] == x;
            if j < m.len() {
                assert(m[j] == x);
                assert(m.contains(x));
                let k = choose|k: int| 0 <= k < t.len() && t[k] == x;
                assert(ps[k] == x);
            } else {
                assert(ps[ps.len() - 1] == x);
            }
        }
    }
}

/// What a catalog search keeps, for a lowercased search text `q` and a kind filter: a
/// package of the wanted kind whose lowercased name, description or category contains
/// `q` (any package of that kind when `q` is empty) is shown, and every package shown is
/// one of the catalog's, of the wanted kind, and matches in that way.
pub proof fn law_search_keeps_matches(ps: Seq<PackageEntryView>, q: Seq<char>, kind: Option<PackageKind>)
    ensures
        forall|i: int|
            0 <= i < ps.len() && (kind is None || kind == Some(ps[i].kind)) && (q.len() == 0
                || contains_seq(to_lowercase(ps[i].name), q) || contains_seq(
                to_lowercase(ps[i].description),
                q,
            ) || contains_seq(to_lowercase(ps[i].category), q)) ==> matching_packages(
                ps,
                q,
                kind,
            ).contains(#[trigger] ps[i]),
        forall|x: PackageEntryView| #[trigger] matching_packages(ps, q, kind).contains(x) ==> {
            &&& ps.contains(x)
            &&& (kind is None || kind == Some(x.kind))
            &&& (q.len() == 0 || contains_seq(to_lowercase(x.name), q) || contains_seq(
                to_lowercase(x.description),
                q,
            ) || contains_seq(to_lowercase(x.category), q))
        },
{
    lemma_matching_packages(ps, q, kind);
}

/// The packages shown for a search text and a tab's kind filter: those whose name,
/// description or category contains the search text, case-insensitively, and whose
/// kind matches; in catalog order.
pub fn filter_packages(packages: &Vec<PackageEntry>, search: &str, kind: Option<PackageKind>) -> (out:
    Vec<PackageEntry>)
    ensures
        package_views(out@) == matching_packages(
            package_views(packages@),
            to_lowercase(search@),
            kind,
        ),
        search@.len() == 0 ==> package_views(out@) == matching_packages(
            package_views(packages@),
            Seq::empty(),
            kind,
        ),
        search@.len() == 0 && kind is None ==> package_views(out@) == package_views(packages@),
{
    let q = lowercase(search);
    proof {
        if search@.len() == 0 {
            assert(q@ =~= Seq::<char>::empty());
            lemma_no_filter_keeps_all(package_views(packages@));
        }
    }
    let q_empty = q.as_str().unicode_len() == 0;
    let ghost ps = package_views(packages@);
    let mut out: Vec<PackageEntry> = Vec::new();
    let mut i: usize = 0;
    while i < packages.len()
        invariant
            i <= packages@.len(),
            ps == package_views(packages@),
            q_empty == (q@.len() == 0),
            q@ == to_lowercase(search@),
            package_views(out@) == matching_packages(ps.take(i as int), q@, kind),
        decreases packages@.len() - i,
    {
        let p = &packages[i];
        assert(ps.take(i + 1).drop_last() =~= ps.take(i as int));
        assert(ps.take(i + 1).last() == p@);
        let text = if q_empty {
            true
        } else {
            let n = lowercase(p.name.as_str());
            let d = lowercase(p.description.as_str());
            let c = lowercase(p.category.as_str());
            str_contains(n.as_str(), q.as_str()) || str_contains(d.as_str(), q.as_str())
                || str_contains(c.as_str(), q.as_str())
        };
        let of_kind = match kind {
            Some(k) => p.kind == k,
            None => true,
        };
        if text && of_kind {
            let c = p.clone_entry();
            let ghost before = out@;
            out.push(c);
            assert(package_views(out@) =~= package_views(before).push(p@));
        }
        i += 1;
    }
    assert(ps.take(packages@.len() as int) =~= ps);
    out
}

/// A copy of a list of strings.
fn clone_strings(v: &Vec<String>) -> (r: Vec<String>)
    ensures
        r@.map_values(|t: String| t@) == v@.map_values(|t: String| t@),
{
    let mut r: Vec<String> = Vec::new();
    let mut i: usize = 0;
    while i < v.len()
        invariant
            i <= v@.len(),
            r@.len() == i,
            forall|k: int| 0 <= k < i ==> #[trigger] r@[k]@ == v@[k]@,
        decreases v@.len() - i,
    {
        r.push(owned(v[i].as_str()));
        i += 1;
    }
    assert(r@.map_values(|t: String| t@) =~= v@.map_values(|t: String| t@));
    r
}

impl PackageEntry {
    /// A copy of this entry.
    pub fn clone_entry(&self) -> (p: PackageEntry)
        ensures
            p@ == self@,
    {
        PackageEntry {
            id: owned(self.id.as_str()),
            name: owned(self.name.as_str()),
            description: owned(self.description.as_str()),
            version: owned(self.version.as_str()),
            category: owned(self.category.as_str()),
            kind: self.kind,
            tags: clone_strings(&self.tags),
            store_path: match &self.store_path {
                Some(s) => Some(owned(s.as_str())),
                None => None,
            },
        }
    }
}

// ── Install wizard ────────────────────────────────────────────────────────────

/// The steps of the install wizard.
#[derive(Clone, Copy, Debug, PartialEq, Eq, Structural)]
pub enum WizardStep {
    Overview,
    Configure,
    Confirm,
    Installing,
    Done,
    Error,
}

/// The label of a wizard step.
pub open spec fn step_label(s: WizardStep) -> Seq<char> {
    match s {
        WizardStep::Overview => "Overview"@,
        WizardStep::Configure => "Configure"@,
        WizardStep::Confirm => "Confirm"@,
        WizardStep::Installing => "Installing"@,
        WizardStep::Done => "Done"@,
        WizardStep::Error => "Error"@,
    }
}

/// The step that "Next" leads to; installing moves on by the install's outcome only.
pub open spec fn step_next(s: WizardStep) -> Option<WizardStep> {
    match s {
        WizardStep::Overview => Some(WizardStep::Configure),
        WizardStep::Configure => Some(WizardStep::Confirm),
        WizardStep::Confirm => Some(WizardStep::Installing),
        _ => None,
    }
}

impl WizardStep {
    /// The step's label.
    pub fn label(&self) -> (s: &'static str)
        ensures
            s@ == step_label(*self),
    {
        match self {
            WizardStep::Overview => "Overview",
            WizardStep::Configure => "Configure",
            WizardStep::Confirm => "Confirm",
            WizardStep::Installing => "Installing",
            WizardStep::Done => "Done",
            WizardStep::Error => "Error",
        }
    }

    /// The step "Next" leads to (`None` from Installing, Done and Error).
    pub fn next(&self) -> (n: Option<WizardStep>)
        ensures
            n == step_next(*self),
    {
        match self {
            WizardStep::Overview => Some(WizardStep::Configure),
            WizardStep::Configure => Some(WizardStep::Confirm),
            WizardStep::Confirm => Some(WizardStep::Installing),
            _ => None,
        }
    }
}

/// The steps shown in the wizard's step indicator.
pub open spec fn spec_visible_steps() -> Seq<WizardStep> {
    seq![WizardStep::Overview, WizardStep::Configure, WizardStep::Confirm]
}

/// Whether the indicator shows step `s` as done while the wizard is at `current`.
pub open spec fn step_done(current: WizardStep, s: WizardStep) -> bool {
    ||| current == WizardStep::Confirm && (s == WizardStep::Overview || s == WizardStep::Configure)
    ||| current == WizardStep::Installing
    ||| current == WizardStep::Done
}

/// One dot of the step indicator.
#[derive(Debug)]
pub struct StepDot {
    pub label: String,
    pub active: bool,
    pub done: bool,
    pub last: bool,
    /// The text inside the dot: a check mark once done, else the step's number.
    pub inner: String,
}

/// The text inside dot `index`: a check mark when done, else `index + 1`.
pub open spec fn dot_inner(index: nat, done: bool) -> Seq<char> {
    if done {
        "✓"@
    } else {
        decimal(index + 1)
    }
}

/// The primary button of the wizard's navigation row.
#[derive(Clone, Copy, Debug, PartialEq, Eq, Structural)]
pub enum WizardButton {
    /// No button (while installing, and once done or failed).
    Hidden,
    /// "Install": starts the installation.
    Install,
    /// "Next →": moves to the next step.
    Next,
}

/// The primary button at step `s`.
pub open spec fn primary_button(s: WizardStep) -> WizardButton {
    match s {
        WizardStep::Installing | WizardStep::Done | WizardStep::Error => WizardButton::Hidden,
        WizardStep::Confirm => WizardButton::Install,
        _ => WizardButton::Next,
    }
}

/// The install wizard's state.
#[derive(Debug)]
pub struct InstallWizard {
    pub step: WizardStep,
    /// The error of a failed installation; the wizard stays on `Installing` to show it.
    pub install_error: Option<String>,
}

impl InstallWizard {
    /// A wizard at the overview, without error.
    pub fn new() -> (w: Self)
        ensures
            w.step == WizardStep::Overview,
            w.install_error is None,
    {
        InstallWizard { step: WizardStep::Overview, install_error: None }
    }

    /// The dot for step indicator position `index` (0, 1 or 2).
    pub fn dot(&self, index: usize) -> (d: StepDot)
        requires
            index < 3,
        ensures
            d.label@ == step_label(spec_visible_steps()[index as int]),
            d.active == (self.step == spec_visible_steps()[index as int]),
            d.done == step_done(self.step, spec_visible_steps()[index as int]),
            d.last == (index >= 2),
            d.inner@ == dot_inner(index as nat, d.done),
    {
        let s = if index == 0 {
            WizardStep::Overview
        } else if index == 1 {
            WizardStep::Configure
        } else {
            WizardStep::Confirm
        };
        let cur = self.step;
        let done = match cur {
            WizardStep::Confirm => s == WizardStep::Overview || s == WizardStep::Configure,
            WizardStep::Installing | WizardStep::Done => true,
            _ => false,
        };
        let inner = if done {
            owned("✓")
        } else {
            decimal_string(index as u64 + 1)
        };
        StepDot { label: owned(s.label()), active: cur == s, done, last: index >= 2, inner }
    }

    /// The label of the left button: "Close" once done or failed, else "Cancel".
    pub fn cancel_label(&self) -> (s: &'static str)
        ensures
            s@ == (if self.step == WizardStep::Done || self.step == WizardStep::Error {
                "Close"@
            } else {
                "Cancel"@
            }),
    {
        match self.step {
            WizardStep::Done | WizardStep::Error => "Close",
            _ => "Cancel",
        }
    }

    /// The primary button at the current step.
    pub fn primary(&self) -> (b: WizardButton)
        ensures
            b == primary_button(self.step),
    {
        match self.step {
            WizardStep::Installing | WizardStep::Done | WizardStep::Error => WizardButton::Hidden,
            WizardStep::Confirm => WizardButton::Install,
            _ => WizardButton::Next,
        }
    }

    /// "Next →": moves to the next step where there is one.
    pub fn next(&mut self)
        ensures
            final(self).step == match step_next(old(self).step) {
                Some(n) => n,
                None => old(self).step,
            },
            final(self).install_error == old(self).install_error,
    {
        if let Some(n) = self.step.next() {
            self.step = n;
        }
    }

    /// "Install": the wizard moves to `Installing`; the caller starts the installation.
    pub fn start_install(&mut self)
        ensures
            final(self).step == WizardStep::Installing,
            final(self).install_error == old(self).install_error,
    {
        self.step = WizardStep::Installing;
    }

    /// The installation finished: on success the wizard is done; on failure it stays
    /// where it is and shows the error.
    pub fn install_finished(&mut self, result: Result<(), String>)
        ensures
            match result {
                Ok(()) => final(self).step == WizardStep::Done && final(self).install_error
                    == old(self).install_error,
                Err(e) => final(self).step == old(self).step && final(self).install_error == Some(
                    e,
                ),
            },
    {
        match result {
            Ok(()) => {
                self.step = WizardStep::Done;
            },
            Err(e) => {
                self.install_error = Some(e);
            },
        }
    }
}

/// The configuration hint for a package kind.
pub open spec fn configure_hint(k: PackageKind) -> Seq<char> {
    match k {
        PackageKind::Language => "The language pack will be downloaded and saved locally. Select it in Settings → Language after installation."@,
        PackageKind::Theme => "The theme CSS will be downloaded and saved locally. Activate it in Settings → Appearance after installation."@,
        PackageKind::Widget => "The widget will be registered. Add it to your desktop via Edit Desktop → Add Widget."@,
        _ => "No additional configuration required for this package type."@,
    }
}

/// The hint shown once a package of kind `k` is installed.
pub open spec fn done_hint(k: PackageKind) -> Seq<char> {
    match k {
        PackageKind::Language => "Select it in Settings → Language."@,
        PackageKind::Theme => "Activate it in Settings → Appearance."@,
        PackageKind::Widget => "Add it via Edit Desktop → Add Widget."@,
        _ => "Package is ready to use."@,
    }
}

impl PackageKind {
    /// The configuration hint the wizard shows for this kind.
    pub fn configure_hint(&self) -> (s: &'static str)
        ensures
            s@ == configure_hint(*self),
    {
        match self {
            PackageKind::Language => "The language pack will be downloaded and saved locally. Select it in Settings → Language after installation.",
            PackageKind::Theme => "The theme CSS will be downloaded and saved locally. Activate it in Settings → Appearance after installation.",
            PackageKind::Widget => "The widget will be registered. Add it to your desktop via Edit Desktop → Add Widget.",
            _ => "No additional configuration required for this package type.",
        }
    }

    /// The hint shown once a package of this kind is installed.
    pub fn done_hint(&self) -> (s: &'static str)
        ensures
            s@ == done_hint(*self),
    {
        match self {
            PackageKind::Language => "Select it in Settings → Language.",
            PackageKind::Theme => "Activate it in Settings → Appearance.",
            PackageKind::Widget => "Add it via Edit Desktop → Add Widget.",
            _ => "Package is ready to use.",
        }
    }
}

// ── The download an installation needs ───────────────────────────────────────

/// A file to fetch from the Store and where to save it, relative to the data directory.
#[derive(Debug)]
pub struct DownloadPlan {
    /// Path of the file in the Store.
    pub url: String,
    /// Directory to create, relative to the data directory.
    pub dest_dir: String,
    /// File name inside `dest_dir`.
    pub dest_file: String,
}

/// The Store base path of a package: its own path without trailing `/`, or `default`.
pub open spec fn store_base(store_path: Option<Seq<char>>, default: Seq<char>) -> Seq<char> {
    match store_path {
        Some(p) => strip_trailing(p, '/'),
        None => default,
    }
}

/// The download a package needs: a language pack's `ui.toml` saved under `i18n/{id}`,
/// a theme's `theme.css` saved as `themes/{id}.css`; other kinds need none.
pub open spec fn spec_download(kind: PackageKind, id: Seq<char>, store_path: Option<Seq<char>>) -> Option<
    (Seq<char>, Seq<char>, Seq<char>),
> {
    match kind {
        PackageKind::Language => Some(
            (
                store_base(store_path, "shared/i18n/"@ + id) + "/ui.toml"@,
                "i18n/"@ + id,
                "ui.toml"@,
            ),
        ),
        PackageKind::Theme => Some(
            (
                store_base(store_path, "shared/themes/"@ + id) + "/theme.css"@,
                "themes"@,
                id + ".css"@,
            ),
        ),
        _ => None,
    }
}

/// The download an installation of `package` needs, if any.
pub fn download_plan(package: &PackageEntry) -> (d: Option<DownloadPlan>)
    ensures
        match spec_download(
            package.kind,
            package.id@,
            match package.store_path {
                Some(p) => Some(p@),
                None => None,
            },
        ) {
            Some((url, dir, file)) => d is Some && d->0.url@ == url && d->0.dest_dir@ == dir
                && d->0.dest_file@ == file,
            None => d is None,
        },
{
    let id = package.id.as_str();
    match package.kind {
        PackageKind::Language => {
            let base = match &package.store_path {
                Some(p) => trim_end_char(p.as_str(), '/'),
                None => concat("shared/i18n/", id),
            };
            Some(
                DownloadPlan {
                    url: concat(base.as_str(), "/ui.toml"),
                    dest_dir: concat("i18n/", id),
                    dest_file: owned("ui.toml"),
                },
            )
        },
        PackageKind::Theme => {
            let base = match &package.store_path {
                Some(p) => trim_end_char(p.as_str(), '/'),
                None => concat("shared/themes/", id),
            };
            Some(
                DownloadPlan {
                    url: concat(base.as_str(), "/theme.css"),
                    dest_dir: owned("themes"),
                    dest_file: concat(id, ".css"),
                },
            )
        },
        _ => None,
    }
}

/// What came of fetching and saving the file of a package being installed.
#[derive(Debug)]
pub enum FileOutcome {
    /// The package kind has no file to download.
    NoDownload,
    /// The download failed, with this error.
    DownloadFailed(String),
    /// The file was downloaded and saved at this path.
    Saved(String),
    /// The file was downloaded but saving it failed, with this error.
    SaveFailed(String),
}

/// The file path an installation registers, or the error that stops it: a failed
/// download still registers the package, without a file; a failed save stops the
/// installation with the save error.
pub fn install_file_path(outcome: FileOutcome) -> (r: Result<Option<String>, String>)
    ensures
        match outcome {
            FileOutcome::NoDownload => r == Ok::<Option<String>, String>(None),
            FileOutcome::DownloadFailed(_) => r == Ok::<Option<String>, String>(None),
            FileOutcome::Saved(p) => r == Ok::<Option<String>, String>(Some(p)),
            FileOutcome::SaveFailed(e) => r == Err::<Option<String>, String>(e),
        },
{
    match outcome {
        FileOutcome::NoDownload => Ok(None),
        FileOutcome::DownloadFailed(_) => Ok(None),
        FileOutcome::Saved(p) => Ok(Some(p)),
        FileOutcome::SaveFailed(e) => Err(e),
    }
}

/// The result of an installation once the registry was written: a failed registry write
/// is reported as `"Registry error: {e}"`.
pub fn install_result(registry: Result<(), String>) -> (r: Result<(), String>)
    ensures
        match registry {
            Ok(()) => r is Ok,
            Err(e) => r is Err && r->Err_0@ == "Registry error: "@ + e@,
        },
{
    match registry {
        Ok(()) => Ok(()),
        Err(e) => Err(registry_error_message(e.as_str())),
    }
}

/// The message of a failed registry write.
pub fn registry_error_message(e: &str) -> (m: String)
    ensures
        m@ == "Registry error: "@ + e@,
{
    concat("Registry error: ", e)
}

// ── Installed modules ─────────────────────────────────────────────────────────

/// A Store module installed as a container.
#[derive(Clone, Debug)]
pub struct InstalledEntry {
    pub name: String,
    /// The `fsn.module.id` label.
    pub module: String,
    /// The `fsn.module.version` label.
    pub version: String,
    pub running: bool,
}

/// An installed module as plain values.
pub struct InstalledEntryView {
    pub name: Seq<char>,
    pub module: Seq<char>,
    pub version: Seq<char>,
    pub running: bool,
}

impl View for InstalledEntry {
    type V = InstalledEntryView;

    open spec fn view(&self) -> InstalledEntryView {
        InstalledEntryView {
            name: self.name@,
            module: self.module@,
            version: self.version@,
            running: self.running,
        }
    }
}

/// The entry for a container: module id and version from its labels (the name and
/// `"?"` when missing).
pub open spec fn entry_of(name: Seq<char>, labels: Seq<(Seq<char>, Seq<char>)>, running: bool) -> InstalledEntryView {
    InstalledEntryView {
        name,
        module: match label_value(labels, "fsn.module.id"@) {
            Some(v) => v,
            None => name,
        },
        version: match label_value(labels, "fsn.module.version"@) {
            Some(v) => v,
            None => "?"@,
        },
        running,
    }
}

impl InstalledEntry {
    /// The entry for a container.
    pub fn from_container(c: &ContainerInfo) -> (e: InstalledEntry)
        ensures
            e@ == entry_of(c.name@, label_views(c.labels@), c.running),
    {
        let module = match find_label(&c.labels, "fsn.module.id") {
            Some(v) => v,
            None => owned(c.name.as_str()),
        };
        let version = match find_label(&c.labels, "fsn.module.version") {
            Some(v) => v,
            None => owned("?"),
        };
        InstalledEntry { name: owned(c.name.as_str()), module, version, running: c.running }
    }

    /// The status label: "Running" or "Stopped".
    pub fn status_label(&self) -> (s: &'static str)
        ensures
            s@ == (if self.running { "Running"@ } else { "Stopped"@ }),
    {
        if self.running {
            "Running"
        } else {
            "Stopped"
        }
    }

    /// The systemd unit of the module's container: `"{name}.service"`.
    pub fn unit_name(&self) -> (s: String)
        ensures
            s@ == self.name@ + ".service"@,
    {
        concat(self.name.as_str(), ".service")
    }
}

/// The catalog version of `module`: that of the first catalog entry with its id.
pub open spec fn catalog_version(catalog: Seq<(Seq<char>, Seq<char>)>, module: Seq<char>) -> Option<Seq<char>>
    decreases catalog.len(),
{
    label_value(catalog, module)
}

/// Whether the catalog offers another version of the installed module.
pub fn has_update(entry: &InstalledEntry, catalog_versions: &Vec<(String, String)>) -> (b: bool)
    ensures
        b == match catalog_version(label_views(catalog_versions@), entry.module@) {
            Some(v) => v != entry.version@,
            None => false,
        },
{
    match find_label(catalog_versions, entry.module.as_str()) {
        Some(v) => !str_eq(v.as_str(), entry.version.as_str()),
        None => false,
    }
}

/// The badge shown beside an installed version when the catalog offers another one:
/// `"→ {catalog version}"`.
pub fn update_badge(entry: &InstalledEntry, catalog_versions: &Vec<(String, String)>) -> (b: Option<String>)
    ensures
        match catalog_version(label_views(catalog_versions@), entry.module@) {
            Some(v) => if v != entry.version@ {
                b matches Some(t) && t@ == "→ "@ + v
            } else {
                b is None
            },
            None => b is None,
        },
{
    match find_label(catalog_versions, entry.module.as_str()) {
        Some(v) => {
            if str_eq(v.as_str(), entry.version.as_str()) {
                None
            } else {
                Some(concat("→ ", v.as_str()))
            }
        },
        None => None,
    }
}

/// The line under the update notice: how many packages the catalog lists, shown only
/// when it lists any.
pub fn catalog_summary(count: usize) -> (s: Option<String>)
    ensures
        count == 0 ==> s is None,
        count > 0 ==> (s matches Some(t) && t@ == decimal(count as nat)
            + " package(s) available in the catalog."@),
{
    if count == 0 {
        None
    } else {
        let n = decimal_string(count as u64);
        Some(concat(n.as_str(), " package(s) available in the catalog."))
    }
}

/// The views of a list of installed entries.
pub open spec fn installed_views(v: Seq<InstalledEntry>) -> Seq<InstalledEntryView> {
    v.map_values(|e: InstalledEntry| e@)
}

/// The entries of the containers among `cs[..n]` that carry the `fsn.module.id` label.
pub open spec fn tagged_entries(cs: Seq<ContainerInfo>, n: int) -> Seq<InstalledEntryView>
    decreases n,
{
    if n <= 0 {
        Seq::empty()
    } else {
        let rest = tagged_entries(cs, n - 1);
        let c = cs[n - 1];
        if label_value(label_views(c.labels@), "fsn.module.id"@) is Some {
            rest.push(entry_of(c.name@, label_views(c.labels@), c.running))
        } else {
            rest
        }
    }
}

/// The installed modules: the containers that carry the `fsn.module.id` label, in order.
pub fn installed_entries(containers: &Vec<ContainerInfo>) -> (out: Vec<InstalledEntry>)
    ensures
        installed_views(out@) == tagged_entries(containers@, containers@.len() as int),
{
    let mut out: Vec<InstalledEntry> = Vec::new();
    let mut i: usize = 0;
    while i < containers.len()
        invariant
            i <= containers@.len(),
            installed_views(out@) == tagged_entries(containers@, i as int),
        decreases containers@.len() - i,
    {
        let c = &containers[i];
        if find_label(&c.labels, "fsn.module.id").is_some() {
            let e = InstalledEntry::from_container(c);
            let ghost before = out@;
            out.push(e);
            assert(installed_views(out@) =~= installed_views(before).push(e@));
        }
        i += 1;
    }
    out
}

/// "Next" leads from the overview to installing in three steps and never further: at
/// Installing, Done and Error it changes nothing.
pub proof fn law_wizard_steps(s: WizardStep)
    ensures
        step_next(WizardStep::Overview) == Some(WizardStep::Configure),
        step_next(WizardStep::Configure) == Some(WizardStep::Confirm),
        step_next(WizardStep::Confirm) == Some(WizardStep::Installing),
        (s == WizardStep::Installing || s == WizardStep::Done || s == WizardStep::Error)
            <==> step_next(s) is None,
{
}

} // verus!
