//! The shell's left sidebar: the navigation items built from the package registry (the
//! installed apps, and a folder bundling the installed managers) and the fixed system
//! entries.
use vstd::prelude::*;
use crate::builtin_apps::{package_views, InstalledPackage, InstalledPackageView};
use crate::header::Translate;
use crate::text::{concat, owned, str_eq};

verus! {

/// A navigation item; an item with children is shown as a folder.
#[derive(Debug)]
pub struct SidebarNavItem {
    pub id: String,
    pub label: String,
    pub icon: String,
    pub children: Vec<SidebarNavItem>,
}

/// A titled group of navigation items.
#[derive(Debug)]
pub struct SidebarSection {
    pub label: &'static str,
    pub items: Vec<SidebarNavItem>,
}

/// The i18n key of a package's sidebar label.
pub open spec fn nav_key(id: Seq<char>) -> Seq<char> {
    "shell.nav."@ + id
}

/// A package's sidebar label: its translation, or the package's name when the key has
/// no translation (the translation is the key itself).
pub open spec fn nav_label<T: Translate>(tr: &T, p: InstalledPackageView) -> Seq<char> {
    let key = nav_key(p.id);
    let l = tr.translation(key);
    if l == key {
        p.name
    } else {
        l
    }
}

/// A leaf item shows the package: its id, label and icon.
pub open spec fn is_package_item<T: Translate>(item: SidebarNavItem, tr: &T, p: InstalledPackageView) -> bool {
    &&& item.id@ == p.id
    &&& item.label@ == nav_label(tr, p)
    &&& item.icon@ == p.icon
    &&& item.children@.len() == 0
}

/// The sidebar item of an installed app or manager.
pub fn nav_item<T: Translate>(pkg: &InstalledPackage, tr: &T) -> (item: SidebarNavItem)
    ensures
        is_package_item(item, tr, pkg@),
{
    let key = concat("shell.nav.", pkg.id.as_str());
    let l = tr.t(key.as_str());
    let label = if str_eq(l.as_str(), key.as_str()) {
        owned(pkg.name.as_str())
    } else {
        l
    };
    SidebarNavItem { id: owned(pkg.id.as_str()), label, icon: owned(pkg.icon.as_str()), children: Vec::new() }
}

/// The entries of kind `kind`, in registry order.
pub open spec fn of_kind(pkgs: Seq<InstalledPackageView>, kind: Seq<char>, n: int) -> Seq<InstalledPackageView>
    decreases n,
{
    if n <= 0 {
        Seq::empty()
    } else {
        let rest = of_kind(pkgs, kind, n - 1);
        if pkgs[n - 1].kind == kind {
            rest.push(pkgs[n - 1])
        } else {
            rest
        }
    }
}

/// The registry entries of kind `kind`, in registry order.
pub fn by_kind(registry: &Vec<InstalledPackage>, kind: &str) -> (v: Vec<InstalledPackage>)
    ensures
        package_views(v@) == of_kind(package_views(registry@), kind@, registry@.len() as int),
{
    let ghost ps = package_views(registry@);
    let mut v: Vec<InstalledPackage> = Vec::new();
    let mut i: usize = 0;
    while i < registry.len()
        invariant
            i <= registry@.len(),
            ps == package_views(registry@),
            package_views(v@) == of_kind(ps, kind@, i as int),
        decreases registry@.len() - i,
    {
        assert(ps[i as int] == registry@[i as int]@);
        if str_eq(registry[i].kind.as_str(), kind) {
            let ghost before = v@;
            v.push(registry[i].clone_entry());
            assert(package_views(v@) =~= package_views(before).push(registry@[i as int]@));
        }
        i += 1;
    }
    v
}

/// Sidebar items for the given packages, one each, in order.
pub fn nav_items<T: Translate>(pkgs: &Vec<InstalledPackage>, tr: &T) -> (items: Vec<SidebarNavItem>)
    ensures
        items@.len() == pkgs@.len(),
        forall|k: int| 0 <= k < pkgs@.len() ==> is_package_item(#[trigger] items@[k], tr, pkgs@[k]@),
{
    let mut items: Vec<SidebarNavItem> = Vec::new();
    let mut i: usize = 0;
    while i < pkgs.len()
        invariant
            i <= pkgs@.len(),
            items@.len() == i,
            forall|k: int| 0 <= k < i ==> is_package_item(#[trigger] items@[k], tr, pkgs@[k]@),
        decreases pkgs@.len() - i,
    {
        items.push(nav_item(&pkgs[i], tr));
        i += 1;
    }
    items
}

/// The folder bundling the installed managers: id `"managers-folder"`, the translated
/// "shell.nav.managers" label, and one child per manager.
pub fn manager_bundle<T: Translate>(managers: &Vec<InstalledPackage>, tr: &T) -> (item: SidebarNavItem)
    ensures
        item.id@ == "managers-folder"@,
        item.label@ == tr.translation("shell.nav.managers"@),
        item.icon@ == "🧩"@,
        item.children@.len() == managers@.len(),
        forall|k: int| 0 <= k < managers@.len() ==> is_package_item(#[trigger] item.children@[k], tr, managers@[k]@),
{
    bundle_with_icon(managers, "🧩", tr)
}

/// The managers folder with the given icon.
fn bundle_with_icon<T: Translate>(managers: &Vec<InstalledPackage>, icon: &str, tr: &T) -> (item: SidebarNavItem)
    ensures
        item.id@ == "managers-folder"@,
        item.label@ == tr.translation("shell.nav.managers"@),
        item.icon@ == icon@,
        item.children@.len() == managers@.len(),
        forall|k: int| 0 <= k < managers@.len() ==> is_package_item(#[trigger] item.children@[k], tr, managers@[k]@),
{
    SidebarNavItem {
        id: owned("managers-folder"),
        label: tr.t("shell.nav.managers"),
        icon: owned(icon),
        children: nav_items(managers, tr),
    }
}

/// A fixed system entry.
fn system_item<T: Translate>(id: &str, key: &str, icon: &str, tr: &T) -> (item: SidebarNavItem)
    ensures
        item.id@ == id@,
        item.label@ == tr.translation(key@),
        item.icon@ == icon@,
        item.children@.len() == 0,
{
    SidebarNavItem { id: owned(id), label: tr.t(key), icon: owned(icon), children: Vec::new() }
}

/// The sidebar sections: "Apps", one item per installed app (registry order); and
/// "System": Settings, Profile, AI Assistant and Help, followed by the managers folder
/// when at least one manager is installed.
pub fn default_sidebar_sections<T: Translate>(registry: &Vec<InstalledPackage>, tr: &T) -> (s: Vec<
    SidebarSection,
>)
    ensures
        s@.len() == 2,
        s@[0].label@ == "Apps"@,
        s@[1].label@ == "System"@,
        ({
            let apps = of_kind(package_views(registry@), "app"@, registry@.len() as int);
            &&& s@[0].items@.len() == apps.len()
            &&& forall|k: int| 0 <= k < apps.len() ==> is_package_item(#[trigger] s@[0].items@[k], tr, apps[k])
        }),
        ({
            let managers = of_kind(package_views(registry@), "manager"@, registry@.len() as int);
            let sys = s@[1].items@;
            &&& sys.len() == if managers.len() > 0 { 5int } else { 4int }
            &&& sys[0].id@ == "settings"@ && sys[0].label@ == tr.translation("shell.nav.settings"@)
                && sys[0].icon@ == "⚙"@
            &&& sys[1].id@ == "profile"@ && sys[1].label@ == tr.translation("shell.nav.profile"@)
                && sys[1].icon@ == "👤"@
            &&& sys[2].id@ == "ai"@ && sys[2].label@ == tr.translation("shell.nav.ai_assistant"@)
                && sys[2].icon@ == "🤖"@
            &&& sys[3].id@ == "help"@ && sys[3].label@ == tr.translation("shell.nav.help"@)
                && sys[3].icon@ == "❓"@
            &&& managers.len() > 0 ==> sys[4].id@ == "managers-folder"@ && sys[4].children@.len()
                == managers.len() && forall|k: int|
                0 <= k < managers.len() ==> is_package_item(#[trigger] sys[4].children@[k], tr, managers[k])
        }),
{
    let mut system_items: Vec<SidebarNavItem> = Vec::new();
    system_items.push(system_item("settings", "shell.nav.settings", "⚙", tr));
    system_items.push(system_item("profile", "shell.nav.profile", "👤", tr));
    system_items.push(system_item("ai", "shell.nav.ai_assistant", "🤖", tr));
    system_items.push(system_item("help", "shell.nav.help", "❓", tr));
    let managers = by_kind(registry, "manager");
    if managers.len() > 0 {
        let bundle = manager_bundle(&managers, tr);
        system_items.push(bundle);
        assert forall|k: int| 0 <= k < managers@.len() implies package_views(managers@)[k] == managers@[k]@ by {}
    }
    let apps = by_kind(registry, "app");
    let app_items = nav_items(&apps, tr);
    assert forall|k: int| 0 <= k < apps@.len() implies package_views(apps@)[k] == apps@[k]@ by {}
    let mut s: Vec<SidebarSection> = Vec::new();
    s.push(SidebarSection { label: "Apps", items: app_items });
    s.push(SidebarSection { label: "System", items: system_items });
    s
}

// ── The sidebar with pinned apps ──────────────────────────────────────────────

/// A registry entry together with whether the user pinned it.
#[derive(Debug)]
pub struct PinnablePackage {
    pub package: InstalledPackage,
    pub pinned: bool,
}

/// The entries of the registry with their pins, as plain values.
pub open spec fn pin_views(r: Seq<PinnablePackage>) -> Seq<(InstalledPackageView, bool)> {
    r.map_values(|e: PinnablePackage| (e.package@, e.pinned))
}

/// Whether an entry is an openable app with the given pin: an app that is not the shell
/// (`fs-desktop`) itself.
pub open spec fn is_listed_app(e: (InstalledPackageView, bool), pinned: bool) -> bool {
    e.0.kind == "app"@ && e.0.id != "fs-desktop"@ && e.1 == pinned
}

/// The openable apps among `r[..n]` whose pin is `pinned`, in order.
pub open spec fn apps_pinned(r: Seq<(InstalledPackageView, bool)>, pinned: bool, n: int) -> Seq<
    InstalledPackageView,
>
    decreases n,
{
    if n <= 0 {
        Seq::empty()
    } else {
        let rest = apps_pinned(r, pinned, n - 1);
        if is_listed_app(r[n - 1], pinned) {
            rest.push(r[n - 1].0)
        } else {
            rest
        }
    }
}

/// The index of the first entry with id `id`, if any.
pub open spec fn first_with_id(r: Seq<(InstalledPackageView, bool)>, id: Seq<char>) -> Option<int> {
    if exists|i: int| 0 <= i < r.len() && r[i].0.id == id {
        Some(choose|i: int| 0 <= i < r.len() && r[i].0.id == id && forall|j: int| 0 <= j < i ==> r[j].0.id != id)
    } else {
        None
    }
}

/// The openable apps with the given pin, in registry order.
pub fn listed_apps(registry: &Vec<PinnablePackage>, pinned: bool) -> (v: Vec<InstalledPackage>)
    ensures
        package_views(v@) == apps_pinned(pin_views(registry@), pinned, registry@.len() as int),
{
    let ghost r = pin_views(registry@);
    let mut v: Vec<InstalledPackage> = Vec::new();
    let mut i: usize = 0;
    while i < registry.len()
        invariant
            i <= registry@.len(),
            r == pin_views(registry@),
            package_views(v@) == apps_pinned(r, pinned, i as int),
        decreases registry@.len() - i,
    {
        let e = &registry[i];
        assert(r[i as int] == (e.package@, e.pinned));
        if str_eq(e.package.kind.as_str(), "app") && !str_eq(e.package.id.as_str(), "fs-desktop")
            && e.pinned == pinned {
            let ghost before = v@;
            v.push(e.package.clone_entry());
            assert(package_views(v@) =~= package_views(before).push(e.package@));
        }
        i += 1;
    }
    v
}

/// The packages of the registry, without their pins.
fn registry_packages(registry: &Vec<PinnablePackage>) -> (v: Vec<InstalledPackage>)
    ensures
        package_views(v@) == pin_views(registry@).map_values(|e: (InstalledPackageView, bool)| e.0),
{
    let mut v: Vec<InstalledPackage> = Vec::new();
    let mut i: usize = 0;
    while i < registry.len()
        invariant
            i <= registry@.len(),
            v@.len() == i,
            forall|k: int| 0 <= k < i ==> #[trigger] v@[k]@ == registry@[k].package@,
        decreases registry@.len() - i,
    {
        v.push(registry[i].package.clone_entry());
        i += 1;
    }
    assert(package_views(v@) =~= pin_views(registry@).map_values(|e: (InstalledPackageView, bool)| e.0));
    v
}

/// The shell's navigation: one "Apps" section with an item per unpinned openable app
/// (registry order), followed by the managers folder (with `managers_icon`) when at least
/// one manager is installed.
pub fn pinnable_sidebar_sections<T: Translate>(registry: &Vec<PinnablePackage>, managers_icon: &str, tr: &T) -> (s:
    Vec<SidebarSection>)
    ensures
        s@.len() == 1,
        s@[0].label@ == "Apps"@,
        ({
            let apps = apps_pinned(pin_views(registry@), false, registry@.len() as int);
            let all = pin_views(registry@).map_values(|e: (InstalledPackageView, bool)| e.0);
            let managers = of_kind(all, "manager"@, all.len() as int);
            let items = s@[0].items@;
            &&& items.len() == apps.len() + if managers.len() > 0 { 1int } else { 0int }
            &&& forall|k: int| 0 <= k < apps.len() ==> is_package_item(#[trigger] items[k], tr, apps[k])
            &&& managers.len() > 0 ==> {
                let b = items[apps.len() as int];
                &&& b.id@ == "managers-folder"@
                &&& b.label@ == tr.translation("shell.nav.managers"@)
                &&& b.icon@ == managers_icon@
                &&& b.children@.len() == managers.len()
                &&& forall|k: int| 0 <= k < managers.len() ==> is_package_item(#[trigger] b.children@[k], tr, managers[k])
            }
        }),
{
    let apps = listed_apps(registry, false);
    let mut items = nav_items(&apps, tr);
    assert forall|k: int| 0 <= k < apps@.len() implies package_views(apps@)[k] == apps@[k]@ by {}
    let all = registry_packages(registry);
    let managers = by_kind(&all, "manager");
    if managers.len() > 0 {
        let b = bundle_with_icon(&managers, managers_icon, tr);
        items.push(b);
        assert forall|k: int| 0 <= k < managers@.len() implies package_views(managers@)[k] == managers@[k]@ by {}
    }
    let mut s: Vec<SidebarSection> = Vec::new();
    s.push(SidebarSection { label: "Apps", items });
    s
}

/// A pinned item: the app's id, icon and name.
pub open spec fn is_pinned_item(item: SidebarNavItem, p: InstalledPackageView) -> bool {
    &&& item.id@ == p.id
    &&& item.label@ == p.name
    &&& item.icon@ == p.icon
    &&& item.children@.len() == 0
}

/// Whether the registry has an entry with id `id`.
pub open spec fn has_entry(r: Seq<(InstalledPackageView, bool)>, id: Seq<char>) -> bool {
    exists|i: int| 0 <= i < r.len() && #[trigger] r[i].0.id == id
}

/// The pinned section: the pinned openable apps (registry order), then Settings when the
/// shell itself (`fs-desktop`) is installed.
pub fn pinned_sidebar_items<T: Translate>(registry: &Vec<PinnablePackage>, settings_icon: &str, tr: &T) -> (items:
    Vec<SidebarNavItem>)
    ensures
        ({
            let r = pin_views(registry@);
            let pinned = apps_pinned(r, true, registry@.len() as int);
            &&& items@.len() == pinned.len() + if has_entry(r, "fs-desktop"@) { 1int } else { 0int }
            &&& forall|k: int| 0 <= k < pinned.len() ==> is_pinned_item(#[trigger] items@[k], pinned[k])
            &&& has_entry(r, "fs-desktop"@) ==> {
                let t = items@[pinned.len() as int];
                &&& t.id@ == "settings"@
                &&& t.label@ == tr.translation("shell.nav.settings"@)
                &&& t.icon@ == settings_icon@
                &&& t.children@.len() == 0
            }
        }),
{
    let ghost r = pin_views(registry@);
    let pinned = listed_apps(registry, true);
    let mut items: Vec<SidebarNavItem> = Vec::new();
    let mut i: usize = 0;
    while i < pinned.len()
        invariant
            i <= pinned@.len(),
            items@.len() == i,
            forall|k: int| 0 <= k < i ==> is_pinned_item(#[trigger] items@[k], pinned@[k]@),
        decreases pinned@.len() - i,
    {
        let p = &pinned[i];
        items.push(
            SidebarNavItem {
                id: owned(p.id.as_str()),
                label: owned(p.name.as_str()),
                icon: owned(p.icon.as_str()),
                children: Vec::new(),
            },
        );
        i += 1;
    }
    assert forall|k: int| 0 <= k < pinned@.len() implies package_views(pinned@)[k] == pinned@[k]@ by {}
    let mut found = false;
    let mut j: usize = 0;
    while j < registry.len()
        invariant
            j <= registry@.len(),
            r == pin_views(registry@),
            found == exists|q: int| 0 <= q < j && #[trigger] r[q].0.id == "fs-desktop"@,
        decreases registry@.len() - j,
    {
        assert(r[j as int].0 == registry@[j as int].package@);
        if str_eq(registry[j].package.id.as_str(), "fs-desktop") {
            assert(r[j as int].0.id == "fs-desktop"@);
            found = true;
        } else {
            assert(r[j as int].0.id != "fs-desktop"@);
        }
        j += 1;
    }
    if found {
        items.push(
            SidebarNavItem {
                id: owned("settings"),
                label: tr.t("shell.nav.settings"),
                icon: owned(settings_icon),
                children: Vec::new(),
            },
        );
    }
    items
}

/// The registry after toggling the pin of the first entry with id `id`.
pub open spec fn pin_toggled(r: Seq<(InstalledPackageView, bool)>, id: Seq<char>) -> Seq<(InstalledPackageView, bool)> {
    match first_with_id(r, id) {
        Some(i) => r.update(i, (r[i].0, !r[i].1)),
        None => r,
    }
}

/// Right-clicking an item toggles the pin of the first registry entry with its id;
/// `false` (and no change) when no entry has that id.
pub fn toggle_pin(registry: &mut Vec<PinnablePackage>, id: &str) -> (found: bool)
    ensures
        match first_with_id(pin_views(old(registry)@), id@) {
            Some(i) => found && final(registry)@.len() == old(registry)@.len() && (forall|k: int|
                0 <= k < old(registry)@.len() && k != i ==> #[trigger] final(registry)@[k] == old(
                    registry,
                )@[k]) && final(registry)@[i].package == old(registry)@[i].package
                && final(registry)@[i].pinned == !old(registry)@[i].pinned,
            None => !found && final(registry)@ == old(registry)@,
        },
        pin_views(final(registry)@) == pin_toggled(pin_views(old(registry)@), id@),
{
    let ghost r = pin_views(registry@);
    let mut i: usize = 0;
    while i < registry.len()
        invariant
            i <= registry@.len(),
            registry@ == old(registry)@,
            r == pin_views(old(registry)@),
            forall|q: int| 0 <= q < i ==> #[trigger] r[q].0.id != id@,
        decreases registry@.len() - i,
    {
        assert(r[i as int].0 == registry@[i as int].package@);
        if str_eq(registry[i].package.id.as_str(), id) {
            assert(0 <= i < r.len() && r[i as int].0.id == id@);
            let ghost w = choose|w: int|
                0 <= w < r.len() && r[w].0.id == id@ && forall|j: int| 0 <= j < w ==> r[j].0.id != id@;
            assert(w == i as int) by {
                if w < i {
                } else if w > i {
                    assert(r[i as int].0.id == id@);
                }
            }
            let flipped = !registry[i].pinned;
            registry[i].pinned = flipped;
            assert(pin_views(registry@) =~= r.update(i as int, (r[i as int].0, !r[i as int].1)));
            return true;
        }
        i += 1;
    }
    assert(!exists|q: int| 0 <= q < r.len() && r[q].0.id == id@);
    false
}

/// The first entry with an id depends on the ids alone.
proof fn lemma_first_same_ids(r: Seq<(InstalledPackageView, bool)>, t: Seq<(InstalledPackageView, bool)>, id: Seq<char>)
    requires
        r.len() == t.len(),
        forall|k: int| 0 <= k < r.len() ==> #[trigger] r[k].0 == t[k].0,
    ensures
        first_with_id(r, id) == first_with_id(t, id),
{
    if exists|i: int| 0 <= i < r.len() && r[i].0.id == id {
        let i = choose|i: int| 0 <= i < r.len() && r[i].0.id == id;
        assert(t[i].0.id == id);
        let a = choose|a: int| 0 <= a < r.len() && r[a].0.id == id && forall|j: int| 0 <= j < a ==> r[j].0.id != id;
        let b = choose|b: int| 0 <= b < t.len() && t[b].0.id == id && forall|j: int| 0 <= j < b ==> t[j].0.id != id;
        lemma_first_exists(r, id, i);
        lemma_first_exists(t, id, i);
        assert(r[b].0 == t[b].0);
        assert(t[a].0 == r[a].0);
        if a < b {
            assert(t[a].0.id != id);
        } else if b < a {
            assert(r[b].0.id != id);
        }
    } else {
        assert forall|i: int| 0 <= i < t.len() implies t[i].0.id != id by {
            assert(r[i].0 == t[i].0);
        }
    }
}

/// Where some entry has the id, there is a first one.
proof fn lemma_first_exists(r: Seq<(InstalledPackageView, bool)>, id: Seq<char>, i: int)
    requires
        0 <= i < r.len(),
        r[i].0.id == id,
    ensures
        exists|a: int| 0 <= a < r.len() && r[a].0.id == id && forall|j: int| 0 <= j < a ==> r[j].0.id != id,
    decreases i,
{
    if exists|j: int| 0 <= j < i && r[j].0.id == id {
        let j = choose|j: int| 0 <= j < i && r[j].0.id == id;
        lemma_first_exists(r, id, j);
    } else {
        assert(forall|j: int| 0 <= j < i ==> r[j].0.id != id);
    }
}

/// Toggling the same item's pin twice gives back the registry's pins.
pub proof fn law_toggle_pin_twice(r: Seq<(InstalledPackageView, bool)>, id: Seq<char>)
    ensures
        pin_toggled(pin_toggled(r, id), id) == r,
{
    let t = pin_toggled(r, id);
    match first_with_id(r, id) {
        Some(i) => {
            lemma_first_exists(r, id, choose|i: int| 0 <= i < r.len() && r[i].0.id == id);
            assert forall|k: int| 0 <= k < r.len() implies #[trigger] r[k].0 == t[k].0 by {}
            lemma_first_same_ids(r, t, id);
            assert(pin_toggled(t, id) =~= r);
        },
        None => {},
    }
}

} // verus!
