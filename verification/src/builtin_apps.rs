//! Built-in app and manager registry: which package registry changes bring the registry
//! in line with the desktop's built-in packages at startup.
//!
//! The Store is always present as the entry point for installing everything else; the
//! five built-in managers (Language, Theme, Icons, Container, Bots) exist without
//! installation. Built-in items are kept as registry entries so that they appear in the
//! sidebar and show up as installed in the Store.
use vstd::prelude::*;
use crate::text::{owned, str_eq};

verus! {

/// A package registry entry.
#[derive(Debug, Clone)]
pub struct InstalledPackage {
    pub id: String,
    pub name: String,
    pub kind: String,
    pub version: String,
    pub icon: String,
    pub file_path: Option<String>,
    pub installed_by: Option<String>,
}

/// A registry entry as plain character sequences.
pub struct InstalledPackageView {
    pub id: Seq<char>,
    pub name: Seq<char>,
    pub kind: Seq<char>,
    pub version: Seq<char>,
    pub icon: Seq<char>,
    pub file_path: Option<Seq<char>>,
    pub installed_by: Option<Seq<char>>,
}

/// The view of an optional string.
pub open spec fn opt_str(o: Option<String>) -> Option<Seq<char>> {
    match o {
        Some(s) => Some(s@),
        None => None,
    }
}

impl View for InstalledPackage {
    type V = InstalledPackageView;

    open spec fn view(&self) -> InstalledPackageView {
        InstalledPackageView {
            id: self.id@,
            name: self.name@,
            kind: self.kind@,
            version: self.version@,
            icon: self.icon@,
            file_path: opt_str(self.file_path),
            installed_by: opt_str(self.installed_by),
        }
    }
}

/// One change to the package registry.
#[derive(Debug)]
pub enum RegistryChange {
    /// Remove the entry with this id.
    Remove(String),
    /// Install this entry.
    Install(InstalledPackage),
}

/// A registry change as plain values.
pub enum RegistryChangeView {
    Remove(Seq<char>),
    Install(InstalledPackageView),
}

impl View for RegistryChange {
    type V = RegistryChangeView;

    open spec fn view(&self) -> RegistryChangeView {
        match self {
            RegistryChange::Remove(id) => RegistryChangeView::Remove(id@),
            RegistryChange::Install(p) => RegistryChangeView::Install(p@),
        }
    }
}

/// The icons of the built-in packages.
pub struct BuiltinIcons {
    pub store: String,
    pub language: String,
    pub theme: String,
    pub icons: String,
    pub container: String,
    pub bots: String,
}

// ── The built-in table ────────────────────────────────────────────────────────

/// Ids of the built-in packages, in registration order.
pub open spec fn builtin_ids() -> Seq<Seq<char>> {
    seq![
        "store"@,
        "language-manager"@,
        "theme-manager"@,
        "icons-manager"@,
        "container"@,
        "bot-manager"@,
    ]
}

/// Old ids of renamed managers; entries under them are removed at startup.
pub open spec fn legacy_ids() -> Seq<Seq<char>> {
    seq![
        "manager-language"@,
        "manager-theme"@,
        "manager-icons"@,
        "manager-container-app"@,
        "manager-bots"@,
    ]
}

/// The registry entry of a built-in package.
pub open spec fn builtin_entry(
    id: Seq<char>,
    name: Seq<char>,
    kind: Seq<char>,
    icon: Seq<char>,
    version: Seq<char>,
) -> InstalledPackageView {
    InstalledPackageView {
        id,
        name,
        kind,
        version,
        icon,
        file_path: None,
        installed_by: None,
    }
}

/// The registry entries of all built-in packages, in registration order.
pub open spec fn builtin_entries(icons: BuiltinIcons, version: Seq<char>) -> Seq<
    InstalledPackageView,
> {
    seq![
        builtin_entry("store"@, "Store"@, "app"@, icons.store@, version),
        builtin_entry("language-manager"@, "Language Manager"@, "manager"@, icons.language@, version),
        builtin_entry("theme-manager"@, "Theme Manager"@, "manager"@, icons.theme@, version),
        builtin_entry("icons-manager"@, "Icons Manager"@, "manager"@, icons.icons@, version),
        builtin_entry("container"@, "Container Manager"@, "manager"@, icons.container@, version),
        builtin_entry("bot-manager"@, "Bots Manager"@, "manager"@, icons.bots@, version),
    ]
}

// ── The plan ──────────────────────────────────────────────────────────────────

/// The ids of a list of registry entries.
pub open spec fn ids_of(pkgs: Seq<InstalledPackageView>) -> Seq<Seq<char>> {
    pkgs.map_values(|p: InstalledPackageView| p.id)
}

/// Removals of the legacy ids `legacy[..n]` that occur among `ids`, in order.
pub open spec fn legacy_removals(legacy: Seq<Seq<char>>, ids: Seq<Seq<char>>, n: int) -> Seq<
    RegistryChangeView,
>
    decreases n,
{
    if n <= 0 {
        Seq::empty()
    } else {
        let rest = legacy_removals(legacy, ids, n - 1);
        if ids.contains(legacy[n - 1]) {
            rest.push(RegistryChangeView::Remove(legacy[n - 1]))
        } else {
            rest
        }
    }
}

/// A stale app entry: an app that is neither built in nor under a legacy id and whose
/// binary is missing.
pub open spec fn is_stale(p: InstalledPackageView, has_binary: bool) -> bool {
    &&& p.kind == "app"@
    &&& !builtin_ids().contains(p.id)
    &&& !legacy_ids().contains(p.id)
    &&& !has_binary
}

/// Removals of the stale entries among `pkgs[..n]`, in order.
pub open spec fn stale_removals(pkgs: Seq<InstalledPackageView>, has_binary: Seq<bool>, n: int) -> Seq<
    RegistryChangeView,
>
    decreases n,
{
    if n <= 0 {
        Seq::empty()
    } else {
        let rest = stale_removals(pkgs, has_binary, n - 1);
        if is_stale(pkgs[n - 1], has_binary[n - 1]) {
            rest.push(RegistryChangeView::Remove(pkgs[n - 1].id))
        } else {
            rest
        }
    }
}

/// Installs of the built-in entries `builtins[..n]` whose id is not among `ids`, in order.
pub open spec fn builtin_installs(builtins: Seq<InstalledPackageView>, ids: Seq<Seq<char>>, n: int) -> Seq<
    RegistryChangeView,
>
    decreases n,
{
    if n <= 0 {
        Seq::empty()
    } else {
        let rest = builtin_installs(builtins, ids, n - 1);
        if ids.contains(builtins[n - 1].id) {
            rest
        } else {
            rest.push(RegistryChangeView::Install(builtins[n - 1]))
        }
    }
}

/// The registry changes made at startup, given the registry's entries and, for each,
/// whether its binary exists: first the legacy ids present are removed, then the stale
/// app entries, and then every built-in package that is not registered is installed.
pub open spec fn registration_plan(
    pkgs: Seq<InstalledPackageView>,
    has_binary: Seq<bool>,
    icons: BuiltinIcons,
    version: Seq<char>,
) -> Seq<RegistryChangeView> {
    legacy_removals(legacy_ids(), ids_of(pkgs), 5) + stale_removals(
        pkgs,
        has_binary,
        pkgs.len() as int,
    ) + builtin_installs(builtin_entries(icons, version), ids_of(pkgs), 6)
}

/// The views of a list of changes.
pub open spec fn change_views(v: Seq<RegistryChange>) -> Seq<RegistryChangeView> {
    v.map_values(|c: RegistryChange| c@)
}

/// The views of a list of entries.
pub open spec fn package_views(v: Seq<InstalledPackage>) -> Seq<InstalledPackageView> {
    v.map_values(|p: InstalledPackage| p@)
}

// ── Execution ─────────────────────────────────────────────────────────────────

fn make_entry(id: &str, name: &str, kind: &str, icon: &String, version: &str) -> (p:
    InstalledPackage)
    ensures
        p@ == builtin_entry(id@, name@, kind@, icon@, version@),
{
    InstalledPackage {
        id: owned(id),
        name: owned(name),
        kind: owned(kind),
        version: owned(version),
        icon: owned(icon.as_str()),
        file_path: None,
        installed_by: None,
    }
}

fn builtin_packages(icons: &BuiltinIcons, version: &str) -> (v: Vec<InstalledPackage>)
    ensures
        package_views(v@) == builtin_entries(*icons, version@),
        v@.len() == 6,
{
    let mut v: Vec<InstalledPackage> = Vec::new();
    v.push(make_entry("store", "Store", "app", &icons.store, version));
    v.push(make_entry("language-manager", "Language Manager", "manager", &icons.language, version));
    v.push(make_entry("theme-manager", "Theme Manager", "manager", &icons.theme, version));
    v.push(make_entry("icons-manager", "Icons Manager", "manager", &icons.icons, version));
    v.push(make_entry("container", "Container Manager", "manager", &icons.container, version));
    v.push(make_entry("bot-manager", "Bots Manager", "manager", &icons.bots, version));
    assert(package_views(v@) =~= builtin_entries(*icons, version@));
    v
}

fn legacy_id_list() -> (v: Vec<String>)
    ensures
        v@.map_values(|s: String| s@) == legacy_ids(),
        v@.len() == 5,
{
    let mut v: Vec<String> = Vec::new();
    v.push(owned("manager-language"));
    v.push(owned("manager-theme"));
    v.push(owned("manager-icons"));
    v.push(owned("manager-container-app"));
    v.push(owned("manager-bots"));
    assert(v@.map_values(|s: String| s@) =~= legacy_ids());
    v
}

fn builtin_id_list() -> (v: Vec<String>)
    ensures
        v@.map_values(|s: String| s@) == builtin_ids(),
{
    let mut v: Vec<String> = Vec::new();
    v.push(owned("store"));
    v.push(owned("language-manager"));
    v.push(owned("theme-manager"));
    v.push(owned("icons-manager"));
    v.push(owned("container"));
    v.push(owned("bot-manager"));
    assert(v@.map_values(|s: String| s@) =~= builtin_ids());
    v
}

/// Whether one of `names` equals `s`.
fn contains_name(names: &Vec<String>, s: &str) -> (b: bool)
    ensures
        b == names@.map_values(|t: String| t@).contains(s@),
{
    let ghost vs = names@.map_values(|t: String| t@);
    let mut i: usize = 0;
    while i < names.len()
        invariant
            i <= names@.len(),
            vs == names@.map_values(|t: String| t@),
            forall|k: int| 0 <= k < i ==> vs[k] != s@,
        decreases names@.len() - i,
    {
        if str_eq(names[i].as_str(), s) {
            assert(vs[i as int] == s@);
            return true;
        }
        i += 1;
    }
    false
}

/// Whether one of the entries has the id `s`.
fn has_id(pkgs: &Vec<InstalledPackage>, s: &str) -> (b: bool)
    ensures
        b == ids_of(package_views(pkgs@)).contains(s@),
{
    let ghost ids = ids_of(package_views(pkgs@));
    let mut i: usize = 0;
    while i < pkgs.len()
        invariant
            i <= pkgs@.len(),
            ids == ids_of(package_views(pkgs@)),
            forall|k: int| 0 <= k < i ==> ids[k] != s@,
        decreases pkgs@.len() - i,
    {
        if str_eq(pkgs[i].id.as_str(), s) {
            assert(ids[i as int] == s@);
            return true;
        }
        i += 1;
    }
    false
}

/// The registry changes that register the built-in packages (idempotent: applied to a
/// registry that already holds them, it changes nothing but stale and legacy entries).
///
/// `installed` is the registry's content and `has_binary[k]` whether the file of
/// `installed[k]` exists on disk. First every legacy id that is present is removed, then
/// every app entry that is neither built in nor under a legacy id and has no binary, and
/// then every built-in package that is not registered is installed with the given icons
/// and version.
pub fn ensure_registered(
    installed: &Vec<InstalledPackage>,
    has_binary: &Vec<bool>,
    icons: &BuiltinIcons,
    version: &str,
) -> (changes: Vec<RegistryChange>)
    requires
        has_binary@.len() == installed@.len(),
    ensures
        change_views(changes@) == registration_plan(
            package_views(installed@),
            has_binary@,
            *icons,
            version@,
        ),
{
    let ghost pkgs = package_views(installed@);
    let legacy = legacy_id_list();
    let builtin = builtin_id_list();
    let mut changes: Vec<RegistryChange> = Vec::new();

    let mut i: usize = 0;
    while i < legacy.len()
        invariant
            i <= legacy@.len(),
            legacy@.len() == 5,
            legacy@.map_values(|s: String| s@) == legacy_ids(),
            pkgs == package_views(installed@),
            change_views(changes@) == legacy_removals(legacy_ids(), ids_of(pkgs), i as int),
        decreases legacy@.len() - i,
    {
        assert(legacy_ids()[i as int] == legacy@[i as int]@);
        if has_id(installed, legacy[i].as_str()) {
            let ghost before = changes@;
            changes.push(RegistryChange::Remove(owned(legacy[i].as_str())));
            assert(change_views(changes@) =~= change_views(before).push(
                RegistryChangeView::Remove(legacy_ids()[i as int]),
            ));
        }
        i += 1;
    }
    let ghost part1 = change_views(changes@);

    let mut k: usize = 0;
    while k < installed.len()
        invariant
            k <= installed@.len(),
            has_binary@.len() == installed@.len(),
            pkgs == package_views(installed@),
            legacy@.map_values(|s: String| s@) == legacy_ids(),
            builtin@.map_values(|s: String| s@) == builtin_ids(),
            part1 == legacy_removals(legacy_ids(), ids_of(pkgs), 5),
            change_views(changes@) == part1 + stale_removals(pkgs, has_binary@, k as int),
        decreases installed@.len() - k,
    {
        let p = &installed[k];
        assert(pkgs[k as int] == p@);
        let stale = str_eq(p.kind.as_str(), "app") && !contains_name(&builtin, p.id.as_str())
            && !contains_name(&legacy, p.id.as_str()) && !has_binary[k];
        if stale {
            let ghost before = changes@;
            changes.push(RegistryChange::Remove(owned(p.id.as_str())));
            assert(change_views(changes@) =~= change_views(before).push(
                RegistryChangeView::Remove(p.id@),
            ));
            assert(change_views(changes@) =~= part1 + stale_removals(
                pkgs,
                has_binary@,
                k + 1,
            ));
        } else {
            assert(stale_removals(pkgs, has_binary@, k + 1) == stale_removals(
                pkgs,
                has_binary@,
                k as int,
            ));
        }
        k += 1;
    }
    let ghost part2 = change_views(changes@);

    let entries = builtin_packages(icons, version);
    let mut j: usize = 0;
    while j < entries.len()
        invariant
            j <= entries@.len(),
            entries@.len() == 6,
            package_views(entries@) == builtin_entries(*icons, version@),
            pkgs == package_views(installed@),
            part2 == part1 + stale_removals(pkgs, has_binary@, installed@.len() as int),
            part1 == legacy_removals(legacy_ids(), ids_of(pkgs), 5),
            change_views(changes@) == part2 + builtin_installs(
                builtin_entries(*icons, version@),
                ids_of(pkgs),
                j as int,
            ),
        decreases entries@.len() - j,
    {
        let e = &entries[j];
        assert(builtin_entries(*icons, version@)[j as int] == e@);
        if !has_id(installed, e.id.as_str()) {
            let ghost before = changes@;
            changes.push(RegistryChange::Install(e.clone_entry()));
            assert(change_views(changes@) =~= change_views(before).push(
                RegistryChangeView::Install(e@),
            ));
            assert(change_views(changes@) =~= part2 + builtin_installs(
                builtin_entries(*icons, version@),
                ids_of(pkgs),
                j + 1,
            ));
        }
        j += 1;
    }
    assert(pkgs.len() == installed@.len());
    changes
}

impl InstalledPackage {
    /// A copy of this entry.
    pub fn clone_entry(&self) -> (p: InstalledPackage)
        ensures
            p@ == self@,
    {
        InstalledPackage {
            id: owned(self.id.as_str()),
            name: owned(self.name.as_str()),
            kind: owned(self.kind.as_str()),
            version: owned(self.version.as_str()),
            icon: owned(self.icon.as_str()),
            file_path: match &self.file_path {
                Some(f) => Some(owned(f.as_str())),
                None => None,
            },
            installed_by: match &self.installed_by {
                Some(f) => Some(owned(f.as_str())),
                None => None,
            },
        }
    }
}

// ── Idempotence ───────────────────────────────────────────────────────────────

/// A registry: its entries, each with whether the entry's binary exists.
pub type RegistryView = Seq<(InstalledPackageView, bool)>;

/// The registry without the entries whose id is `id`.
pub open spec fn without_id(reg: RegistryView, id: Seq<char>) -> RegistryView
    decreases reg.len(),
{
    if reg.len() == 0 {
        reg
    } else {
        let r = without_id(reg.drop_last(), id);
        if reg.last().0.id == id {
            r
        } else {
            r.push(reg.last())
        }
    }
}

/// The registry after one change: a removal drops every entry with the id, an install
/// appends the entry (a registered built-in has no binary of its own).
pub open spec fn apply_change(reg: RegistryView, c: RegistryChangeView) -> RegistryView {
    match c {
        RegistryChangeView::Remove(id) => without_id(reg, id),
        RegistryChangeView::Install(p) => reg.push((p, false)),
    }
}

/// The registry after the changes, applied in order.
pub open spec fn apply_changes(reg: RegistryView, cs: Seq<RegistryChangeView>) -> RegistryView
    decreases cs.len(),
{
    if cs.len() == 0 {
        reg
    } else {
        apply_changes(apply_change(reg, cs[0]), cs.drop_first())
    }
}

/// The entries of a registry.
pub open spec fn entries_of(reg: RegistryView) -> Seq<InstalledPackageView> {
    reg.map_values(|e: (InstalledPackageView, bool)| e.0)
}

/// The binary flags of a registry.
pub open spec fn flags_of(reg: RegistryView) -> Seq<bool> {
    reg.map_values(|e: (InstalledPackageView, bool)| e.1)
}

/// The startup changes for a registry.
pub open spec fn plan_for(reg: RegistryView, icons: BuiltinIcons, version: Seq<char>) -> Seq<
    RegistryChangeView,
> {
    registration_plan(entries_of(reg), flags_of(reg), icons, version)
}

proof fn lemma_without_id(reg: RegistryView, id: Seq<char>)
    ensures
        forall|e: (InstalledPackageView, bool)| #[trigger] without_id(reg, id).contains(e) <==> (
        reg.contains(e) && e.0.id != id),
    decreases reg.len(),
{
    if reg.len() > 0 {
        let t = reg.drop_last();
        lemma_without_id(t, id);
        let r = without_id(t, id);
        assert forall|e: (InstalledPackageView, bool)| #[trigger] without_id(reg, id).contains(e) <==> (
        reg.contains(e) && e.0.id != id) by {
            if reg.contains(e) {
                let k = choose|k: int| 0 <= k < reg.len() && reg[k] == e;
                if k < t.len() {
                    assert(t[k] == e);
                }
            }
            if t.contains(e) {
                let k = choose|k: int| 0 <= k < t.len() && t[k] == e;
                assert(reg[k] == e);
            }
            if reg.last().0.id != id {
                let w = r.push(reg.last());
                if w.contains(e) {
                    let k = choose|k: int| 0 <= k < w.len() && w[k] == e;
                    if k < r.len() {
                        assert(r[k] == e);
                    }
                }
                if r.contains(e) {
                    let k = choose|k: int| 0 <= k < r.len() && r[k] == e;
                    assert(w[k] == e);
                }
                assert(w[r.len() as int] == reg.last());
            }
        }
    }
}

proof fn lemma_apply_concat(reg: RegistryView, a: Seq<RegistryChangeView>, b: Seq<RegistryChangeView>)
    ensures
        apply_changes(reg, a + b) == apply_changes(apply_changes(reg, a), b),
    decreases a.len(),
{
    if a.len() == 0 {
        assert(a + b =~= b);
    } else {
        assert((a + b)[0] == a[0]);
        assert((a + b).drop_first() =~= a.drop_first() + b);
        lemma_apply_concat(apply_change(reg, a[0]), a.drop_first(), b);
    }
}

/// Every change of `cs` is a removal.
pub open spec fn all_removals(cs: Seq<RegistryChangeView>) -> bool {
    forall|k: int| 0 <= k < cs.len() ==> #[trigger] cs[k] is Remove
}

/// `cs` removes the id `id`.
pub open spec fn removes(cs: Seq<RegistryChangeView>, id: Seq<char>) -> bool {
    exists|k: int| 0 <= k < cs.len() && #[trigger] cs[k] == RegistryChangeView::Remove(id)
}

proof fn lemma_apply_removals(reg: RegistryView, cs: Seq<RegistryChangeView>)
    requires
        all_removals(cs),
    ensures
        forall|e: (InstalledPackageView, bool)| #[trigger] apply_changes(reg, cs).contains(e) <==> (
        reg.contains(e) && !removes(cs, e.0.id)),
    decreases cs.len(),
{
    if cs.len() > 0 {
        let id = cs[0]->Remove_0;
        assert(cs[0] == RegistryChangeView::Remove(id));
        let rest = cs.drop_first();
        assert(all_removals(rest)) by {
            assert forall|k: int| 0 <= k < rest.len() implies #[trigger] rest[k] is Remove by {
                assert(rest[k] == cs[k + 1]);
            }
        }
        lemma_without_id(reg, id);
        lemma_apply_removals(without_id(reg, id), rest);
        assert(apply_change(reg, cs[0]) == without_id(reg, id));
        assert(apply_changes(reg, cs) == apply_changes(without_id(reg, id), rest));
        assert forall|e: (InstalledPackageView, bool)| #[trigger] apply_changes(reg, cs).contains(e) <==> (
        reg.contains(e) && !removes(cs, e.0.id)) by {
            if removes(cs, e.0.id) {
                let k = choose|k: int| 0 <= k < cs.len() && #[trigger] cs[k] == RegistryChangeView::Remove(e.0.id);
                if k > 0 {
                    assert(rest[k - 1] == cs[k]);
                    assert(removes(rest, e.0.id));
                }
            }
            if removes(rest, e.0.id) {
                let k = choose|k: int| 0 <= k < rest.len() && #[trigger] rest[k] == RegistryChangeView::Remove(e.0.id);
                assert(cs[k + 1] == rest[k]);
                assert(removes(cs, e.0.id));
            }
            if e.0.id == id {
                assert(cs[0] == RegistryChangeView::Remove(e.0.id));
                assert(removes(cs, e.0.id));
            }
        }
    }
}

/// Every change of `cs` is an install.
pub open spec fn all_installs(cs: Seq<RegistryChangeView>) -> bool {
    forall|k: int| 0 <= k < cs.len() ==> #[trigger] cs[k] is Install
}

/// `cs` installs the entry `p`.
pub open spec fn installs(cs: Seq<RegistryChangeView>, p: InstalledPackageView) -> bool {
    exists|k: int| 0 <= k < cs.len() && #[trigger] cs[k] == RegistryChangeView::Install(p)
}

proof fn lemma_apply_installs(reg: RegistryView, cs: Seq<RegistryChangeView>)
    requires
        all_installs(cs),
    ensures
        forall|e: (InstalledPackageView, bool)| #[trigger] apply_changes(reg, cs).contains(e) <==> (
        reg.contains(e) || (installs(cs, e.0) && !e.1)),
    decreases cs.len(),
{
    if cs.len() > 0 {
        let p = cs[0]->Install_0;
        assert(cs[0] == RegistryChangeView::Install(p));
        let rest = cs.drop_first();
        assert(all_installs(rest)) by {
            assert forall|k: int| 0 <= k < rest.len() implies #[trigger] rest[k] is Install by {
                assert(rest[k] == cs[k + 1]);
            }
        }
        let r1 = reg.push((p, false));
        lemma_apply_installs(r1, rest);
        assert(apply_change(reg, cs[0]) == r1);
        assert(apply_changes(reg, cs) == apply_changes(r1, rest));
        assert forall|e: (InstalledPackageView, bool)| #[trigger] apply_changes(reg, cs).contains(e) <==> (
        reg.contains(e) || (installs(cs, e.0) && !e.1)) by {
            if r1.contains(e) {
                let k = choose|k: int| 0 <= k < r1.len() && r1[k] == e;
                if k < reg.len() {
                    assert(reg[k] == e);
                } else {
                    assert(cs[0] == RegistryChangeView::Install(e.0));
                }
            }
            if reg.contains(e) {
                let k = choose|k: int| 0 <= k < reg.len() && reg[k] == e;
                assert(r1[k] == e);
            }
            if installs(cs, e.0) && !e.1 {
                let k = choose|k: int| 0 <= k < cs.len() && #[trigger] cs[k] == RegistryChangeView::Install(e.0);
                if k > 0 {
                    assert(rest[k - 1] == cs[k]);
                    assert(installs(rest, e.0));
                } else {
                    assert(r1[reg.len() as int] == e);
                }
            }
            if installs(rest, e.0) {
                let k = choose|k: int| 0 <= k < rest.len() && #[trigger] rest[k] == RegistryChangeView::Install(e.0);
                assert(cs[k + 1] == rest[k]);
                assert(installs(cs, e.0));
            }
        }
    }
}

proof fn lemma_legacy_removals(legacy: Seq<Seq<char>>, ids: Seq<Seq<char>>, n: int)
    requires
        0 <= n <= legacy.len(),
    ensures
        all_removals(legacy_removals(legacy, ids, n)),
        forall|id: Seq<char>| #[trigger] removes(legacy_removals(legacy, ids, n), id) <==> (exists|k: int|
            0 <= k < n && legacy[k] == id && ids.contains(id)),
        (forall|k: int| 0 <= k < n ==> !ids.contains(#[trigger] legacy[k])) ==> legacy_removals(legacy, ids, n) == Seq::<RegistryChangeView>::empty(),
    decreases n,
{
    if n > 0 {
        lemma_legacy_removals(legacy, ids, n - 1);
        let r = legacy_removals(legacy, ids, n - 1);
        if ids.contains(legacy[n - 1]) {
            let w = r.push(RegistryChangeView::Remove(legacy[n - 1]));
            assert forall|k: int| 0 <= k < w.len() implies #[trigger] w[k] is Remove by {
                if k < r.len() {
                    assert(w[k] == r[k]);
                }
            }
            assert forall|id: Seq<char>| #[trigger] removes(w, id) <==> (exists|k: int|
                0 <= k < n && legacy[k] == id && ids.contains(id)) by {
                if removes(w, id) {
                    let k = choose|k: int| 0 <= k < w.len() && #[trigger] w[k] == RegistryChangeView::Remove(id);
                    if k < r.len() {
                        assert(r[k] == w[k]);
                        assert(removes(r, id));
                    } else {
                        assert(legacy[n - 1] == id);
                    }
                }
                if exists|k: int| 0 <= k < n && legacy[k] == id && ids.contains(id) {
                    let k = choose|k: int| 0 <= k < n && legacy[k] == id && ids.contains(id);
                    if k < n - 1 {
                        assert(removes(r, id));
                        let m = choose|m: int| 0 <= m < r.len() && #[trigger] r[m] == RegistryChangeView::Remove(id);
                        assert(w[m] == r[m]);
                    } else {
                        assert(w[r.len() as int] == RegistryChangeView::Remove(id));
                    }
                }
            }
        } else {
            assert forall|id: Seq<char>| #[trigger] removes(r, id) <==> (exists|k: int|
                0 <= k < n && legacy[k] == id && ids.contains(id)) by {
                if exists|k: int| 0 <= k < n && legacy[k] == id && ids.contains(id) {
                    let k = choose|k: int| 0 <= k < n && legacy[k] == id && ids.contains(id);
                    assert(k != n - 1);
                }
            }
        }
    }
}

proof fn lemma_stale_removals(pkgs: Seq<InstalledPackageView>, hb: Seq<bool>, n: int)
    requires
        0 <= n <= pkgs.len(),
        n <= hb.len(),
    ensures
        all_removals(stale_removals(pkgs, hb, n)),
        forall|id: Seq<char>| #[trigger] removes(stale_removals(pkgs, hb, n), id) <==> (exists|k: int|
            0 <= k < n && is_stale(pkgs[k], hb[k]) && pkgs[k].id == id),
        (forall|k: int| 0 <= k < n ==> !is_stale(#[trigger] pkgs[k], hb[k])) ==> stale_removals(pkgs, hb, n) == Seq::<RegistryChangeView>::empty(),
    decreases n,
{
    if n > 0 {
        lemma_stale_removals(pkgs, hb, n - 1);
        let r = stale_removals(pkgs, hb, n - 1);
        if is_stale(pkgs[n - 1], hb[n - 1]) {
            let w = r.push(RegistryChangeView::Remove(pkgs[n - 1].id));
            assert forall|k: int| 0 <= k < w.len() implies #[trigger] w[k] is Remove by {
                if k < r.len() {
                    assert(w[k] == r[k]);
                }
            }
            assert forall|id: Seq<char>| #[trigger] removes(w, id) <==> (exists|k: int|
                0 <= k < n && is_stale(pkgs[k], hb[k]) && pkgs[k].id == id) by {
                if removes(w, id) {
                    let k = choose|k: int| 0 <= k < w.len() && #[trigger] w[k] == RegistryChangeView::Remove(id);
                    if k < r.len() {
                        assert(r[k] == w[k]);
                        assert(removes(r, id));
                    } else {
                        assert(pkgs[n - 1].id == id);
                    }
                }
                if exists|k: int| 0 <= k < n && is_stale(pkgs[k], hb[k]) && pkgs[k].id == id {
                    let k = choose|k: int| 0 <= k < n && is_stale(pkgs[k], hb[k]) && pkgs[k].id == id;
                    if k < n - 1 {
                        assert(removes(r, id));
                        let m = choose|m: int| 0 <= m < r.len() && #[trigger] r[m] == RegistryChangeView::Remove(id);
                        assert(w[m] == r[m]);
                    } else {
                        assert(w[r.len() as int] == RegistryChangeView::Remove(id));
                    }
                }
            }
        } else {
            assert forall|id: Seq<char>| #[trigger] removes(r, id) <==> (exists|k: int|
                0 <= k < n && is_stale(pkgs[k], hb[k]) && pkgs[k].id == id) by {
                if exists|k: int| 0 <= k < n && is_stale(pkgs[k], hb[k]) && pkgs[k].id == id {
                    let k = choose|k: int| 0 <= k < n && is_stale(pkgs[k], hb[k]) && pkgs[k].id == id;
                    assert(k != n - 1);
                }
            }
        }
    }
}

proof fn lemma_builtin_installs(builtins: Seq<InstalledPackageView>, ids: Seq<Seq<char>>, n: int)
    requires
        0 <= n <= builtins.len(),
    ensures
        all_installs(builtin_installs(builtins, ids, n)),
        forall|p: InstalledPackageView| #[trigger] installs(builtin_installs(builtins, ids, n), p) <==> (exists|k: int|
            0 <= k < n && builtins[k] == p && !ids.contains(p.id)),
        (forall|k: int| 0 <= k < n ==> ids.contains(#[trigger] builtins[k].id)) ==> builtin_installs(builtins, ids, n) == Seq::<RegistryChangeView>::empty(),
    decreases n,
{
    if n > 0 {
        lemma_builtin_installs(builtins, ids, n - 1);
        let r = builtin_installs(builtins, ids, n - 1);
        if !ids.contains(builtins[n - 1].id) {
            let w = r.push(RegistryChangeView::Install(builtins[n - 1]));
            assert forall|k: int| 0 <= k < w.len() implies #[trigger] w[k] is Install by {
                if k < r.len() {
                    assert(w[k] == r[k]);
                }
            }
            assert forall|p: InstalledPackageView| #[trigger] installs(w, p) <==> (exists|k: int|
                0 <= k < n && builtins[k] == p && !ids.contains(p.id)) by {
                if installs(w, p) {
                    let k = choose|k: int| 0 <= k < w.len() && #[trigger] w[k] == RegistryChangeView::Install(p);
                    if k < r.len() {
                        assert(r[k] == w[k]);
                        assert(installs(r, p));
                    } else {
                        assert(builtins[n - 1] == p);
                    }
                }
                if exists|k: int| 0 <= k < n && builtins[k] == p && !ids.contains(p.id) {
                    let k = choose|k: int| 0 <= k < n && builtins[k] == p && !ids.contains(p.id);
                    if k < n - 1 {
                        assert(installs(r, p));
                        let m = choose|m: int| 0 <= m < r.len() && #[trigger] r[m] == RegistryChangeView::Install(p);
                        assert(w[m] == r[m]);
                    } else {
                        assert(w[r.len() as int] == RegistryChangeView::Install(p));
                    }
                }
            }
        } else {
            assert forall|p: InstalledPackageView| #[trigger] installs(r, p) <==> (exists|k: int|
                0 <= k < n && builtins[k] == p && !ids.contains(p.id)) by {
                if exists|k: int| 0 <= k < n && builtins[k] == p && !ids.contains(p.id) {
                    let k = choose|k: int| 0 <= k < n && builtins[k] == p && !ids.contains(p.id);
                    assert(k != n - 1);
                }
            }
        }
    }
}

proof fn lemma_literal_ids()
    ensures
        forall|k: int| 0 <= k < 6 ==> #[trigger] builtin_ids()[k][0] != 'm',
        forall|k: int| 0 <= k < 6 ==> #[trigger] builtin_ids()[k].len() > 0,
        forall|k: int| 0 <= k < 5 ==> #[trigger] legacy_ids()[k][0] == 'm',
        forall|k: int| 0 <= k < 5 ==> #[trigger] legacy_ids()[k].len() > 0,
{
    reveal_strlit("store");
    reveal_strlit("language-manager");
    reveal_strlit("theme-manager");
    reveal_strlit("icons-manager");
    reveal_strlit("container");
    reveal_strlit("bot-manager");
    reveal_strlit("manager-language");
    reveal_strlit("manager-theme");
    reveal_strlit("manager-icons");
    reveal_strlit("manager-container-app");
    reveal_strlit("manager-bots");
}

proof fn lemma_ids_of_contains(reg: RegistryView, id: Seq<char>)
    ensures
        ids_of(entries_of(reg)).contains(id) <==> exists|e: (InstalledPackageView, bool)|
            #[trigger] reg.contains(e) && e.0.id == id,
{
    let ids = ids_of(entries_of(reg));
    if ids.contains(id) {
        let k = choose|k: int| 0 <= k < ids.len() && ids[k] == id;
        assert(reg.contains(reg[k]));
    }
    if exists|e: (InstalledPackageView, bool)| #[trigger] reg.contains(e) && e.0.id == id {
        let e = choose|e: (InstalledPackageView, bool)| #[trigger] reg.contains(e) && e.0.id == id;
        let k = choose|k: int| 0 <= k < reg.len() && reg[k] == e;
        assert(ids[k] == id);
    }
}

/// What the registry holds once the startup changes are applied: no legacy id, no
/// stale app, and every built-in id.
proof fn lemma_after_registration(reg: RegistryView, icons: BuiltinIcons, version: Seq<char>)
    ensures
        ({
            let r3 = apply_changes(reg, plan_for(reg, icons, version));
            &&& forall|e: (InstalledPackageView, bool)| #[trigger] r3.contains(e) ==> !legacy_ids().contains(e.0.id) && !is_stale(e.0, e.1)
            &&& forall|k: int| 0 <= k < 6 ==> ids_of(entries_of(r3)).contains(#[trigger] builtin_ids()[k])
            &&& forall|e: (InstalledPackageView, bool)|
                #[trigger] reg.contains(e) && builtin_ids().contains(e.0.id) ==> r3.contains(e)
        }),
{
    let pkgs = entries_of(reg);
    let hb = flags_of(reg);
    let ids0 = ids_of(pkgs);
    let builtins = builtin_entries(icons, version);
    let lr = legacy_removals(legacy_ids(), ids0, 5);
    let sr = stale_removals(pkgs, hb, pkgs.len() as int);
    let bi = builtin_installs(builtins, ids0, 6);
    assert(plan_for(reg, icons, version) == lr + sr + bi);
    lemma_legacy_removals(legacy_ids(), ids0, 5);
    lemma_stale_removals(pkgs, hb, pkgs.len() as int);
    lemma_builtin_installs(builtins, ids0, 6);
    lemma_literal_ids();
    lemma_apply_concat(reg, lr + sr, bi);
    lemma_apply_concat(reg, lr, sr);
    let r1 = apply_changes(reg, lr);
    let r2 = apply_changes(r1, sr);
    let r3 = apply_changes(r2, bi);
    lemma_apply_removals(reg, lr);
    lemma_apply_removals(r1, sr);
    lemma_apply_installs(r2, bi);
    assert(builtins.len() == 6);
    assert forall|k: int| 0 <= k < 6 implies #[trigger] builtins[k].id == builtin_ids()[k] by {}
    assert forall|k: int| 0 <= k < 6 implies (#[trigger] builtins[k]).file_path is None by {}
    // What the final registry holds.
    assert forall|e: (InstalledPackageView, bool)| #[trigger] r3.contains(e) implies !legacy_ids().contains(e.0.id) && !is_stale(e.0, e.1) by {
        if r2.contains(e) {
            assert(reg.contains(e));
            let k = choose|k: int| 0 <= k < reg.len() && reg[k] == e;
            assert(pkgs[k] == e.0 && hb[k] == e.1);
            if legacy_ids().contains(e.0.id) {
                let j = choose|j: int| 0 <= j < legacy_ids().len() && legacy_ids()[j] == e.0.id;
                assert(ids0[k] == e.0.id);
                assert(removes(lr, e.0.id));
            }
            if is_stale(e.0, e.1) {
                assert(removes(sr, e.0.id));
            }
        } else {
            assert(installs(bi, e.0));
            let k = choose|k: int| 0 <= k < 6 && builtins[k] == e.0 && !ids0.contains(e.0.id);
            assert(builtin_ids().contains(e.0.id));
            if legacy_ids().contains(e.0.id) {
                let j = choose|j: int| 0 <= j < legacy_ids().len() && legacy_ids()[j] == e.0.id;
                assert(legacy_ids()[j][0] == 'm');
                assert(builtin_ids()[k][0] != 'm');
            }
        }
    }
    assert forall|k: int| 0 <= k < 6 implies ids_of(entries_of(r3)).contains(#[trigger] builtins[k].id) by {
        let id = builtins[k].id;
        lemma_ids_of_contains(r3, id);
        lemma_ids_of_contains(reg, id);
        if ids0.contains(id) {
            let e = choose|e: (InstalledPackageView, bool)| #[trigger] reg.contains(e) && e.0.id == id;
            assert(builtin_ids().contains(id));
            if removes(lr, id) {
                let j = choose|j: int| 0 <= j < 5 && legacy_ids()[j] == id && ids0.contains(id);
                assert(legacy_ids()[j][0] == 'm');
                assert(builtin_ids()[k][0] != 'm');
            }
            assert(r1.contains(e));
            if removes(sr, id) {
                let j = choose|j: int| 0 <= j < pkgs.len() && is_stale(pkgs[j], hb[j]) && pkgs[j].id == id;
            }
            assert(r2.contains(e));
            assert(r3.contains(e));
        } else {
            assert(installs(bi, builtins[k]));
            assert(r3.contains((builtins[k], false)));
        }
    }
    assert forall|e: (InstalledPackageView, bool)|
        #[trigger] reg.contains(e) && builtin_ids().contains(e.0.id) implies r3.contains(e) by {
        let id = e.0.id;
        let k = choose|k: int| 0 <= k < builtin_ids().len() && builtin_ids()[k] == id;
        if removes(lr, id) {
            let j = choose|j: int| 0 <= j < 5 && legacy_ids()[j] == id && ids0.contains(id);
            assert(legacy_ids()[j][0] == 'm');
            assert(builtin_ids()[k][0] != 'm');
        }
        assert(r1.contains(e));
        if removes(sr, id) {
            let j = choose|j: int| 0 <= j < pkgs.len() && is_stale(pkgs[j], hb[j]) && pkgs[j].id == id;
        }
        assert(r2.contains(e));
    }
    assert(r3 == apply_changes(reg, plan_for(reg, icons, version)));
    assert forall|k: int| 0 <= k < 6 implies ids_of(entries_of(r3)).contains(#[trigger] builtin_ids()[k]) by {
        assert(builtins[k].id == builtin_ids()[k]);
        assert(ids_of(entries_of(r3)).contains(builtins[k].id));
    }
}

/// Registering the built-ins is idempotent: once the startup changes are applied, the
/// startup changes for the resulting registry are none.
pub proof fn law_registration_idempotent(reg: RegistryView, icons: BuiltinIcons, version: Seq<char>)
    ensures
        plan_for(apply_changes(reg, plan_for(reg, icons, version)), icons, version)
            == Seq::<RegistryChangeView>::empty(),
{
    lemma_after_registration(reg, icons, version);
    let builtins = builtin_entries(icons, version);
    let r3 = apply_changes(reg, plan_for(reg, icons, version));
    assert(builtins.len() == 6);
    assert forall|k: int| 0 <= k < 6 implies #[trigger] builtins[k].id == builtin_ids()[k] by {}
    assert forall|k: int| 0 <= k < 6 implies ids_of(entries_of(r3)).contains(#[trigger] builtins[k].id) by {
        assert(ids_of(entries_of(r3)).contains(builtin_ids()[k]));
    }
    let pkgs3 = entries_of(r3);
    let hb3 = flags_of(r3);
    let ids3 = ids_of(pkgs3);
    assert forall|k: int| 0 <= k < 5 implies !ids3.contains(#[trigger] legacy_ids()[k]) by {
        lemma_ids_of_contains(r3, legacy_ids()[k]);
        if ids3.contains(legacy_ids()[k]) {
            let e = choose|e: (InstalledPackageView, bool)| #[trigger] r3.contains(e) && e.0.id == legacy_ids()[k];
            assert(legacy_ids().contains(e.0.id));
        }
    }
    assert forall|k: int| 0 <= k < pkgs3.len() implies !is_stale(#[trigger] pkgs3[k], hb3[k]) by {
        assert(r3.contains(r3[k]));
        assert(pkgs3[k] == r3[k].0 && hb3[k] == r3[k].1);
    }
    lemma_legacy_removals(legacy_ids(), ids3, 5);
    lemma_stale_removals(pkgs3, hb3, pkgs3.len() as int);
    lemma_builtin_installs(builtins, ids3, 6);
    assert(plan_for(r3, icons, version) == legacy_removals(legacy_ids(), ids3, 5) + stale_removals(
        pkgs3,
        hb3,
        pkgs3.len() as int,
    ) + builtin_installs(builtins, ids3, 6));
    assert(Seq::<RegistryChangeView>::empty() + Seq::<RegistryChangeView>::empty() + Seq::<RegistryChangeView>::empty() =~= Seq::<RegistryChangeView>::empty());
}

/// What startup registration leaves in the registry: no entry under a renamed legacy id,
/// every remaining app entry that is not built in has its binary, every built-in id is
/// present, and a built-in entry that was already registered is kept as it was.
pub proof fn law_registration_outcome(reg: RegistryView, icons: BuiltinIcons, version: Seq<char>)
    ensures
        ({
            let after = apply_changes(reg, plan_for(reg, icons, version));
            &&& forall|e: (InstalledPackageView, bool)| #[trigger] after.contains(e) ==> !legacy_ids().contains(e.0.id)
            &&& forall|e: (InstalledPackageView, bool)|
                #[trigger] after.contains(e) && e.0.kind == "app"@ && !builtin_ids().contains(e.0.id) ==> e.1
            &&& forall|k: int|
                0 <= k < builtin_ids().len() ==> ids_of(entries_of(after)).contains(#[trigger] builtin_ids()[k])
            &&& forall|e: (InstalledPackageView, bool)|
                #[trigger] reg.contains(e) && builtin_ids().contains(e.0.id) ==> after.contains(e)
        }),
{
    lemma_after_registration(reg, icons, version);
}

/// After startup registration every built-in package, the Store first among them, is in
/// the registry.
pub proof fn law_builtins_registered(reg: RegistryView, icons: BuiltinIcons, version: Seq<char>)
    ensures
        forall|k: int|
            0 <= k < builtin_ids().len() ==> ids_of(entries_of(apply_changes(reg, plan_for(reg, icons, version)))).contains(
                #[trigger] builtin_ids()[k],
            ),
        builtin_ids()[0] == "store"@,
{
    lemma_after_registration(reg, icons, version);
}

} // verus!
