//! App launcher: open/close/search/paging state and the grouping of apps into pages.
use vstd::prelude::*;
use crate::taskbar::{AppEntry, AppEntryView};
use crate::text::{contains_seq, lowercase, owned, replace_char, replace_char_exec, str_contains, to_lowercase};
use vstd::slice::slice_subrange;

verus! {

/// How many app groups to show per page in the launcher.
pub const GROUPS_PER_PAGE: usize = 3;

// ── LauncherState ─────────────────────────────────────────────────────────────

/// State exposed to the desktop shell for open/close.
#[derive(Clone, Default, PartialEq, Debug)]
pub struct LauncherState {
    pub open: bool,
    pub query: String,
    pub page: usize,
}

impl LauncherState {
    /// Opens a closed launcher or closes an open one; closing clears the query and
    /// returns to the first page.
    pub fn toggle(&mut self)
        ensures
            final(self).open == !old(self).open,
            final(self).open ==> final(self).query@ == old(self).query@ && final(self).page
                == old(self).page,
            !final(self).open ==> final(self).query@.len() == 0 && final(self).page == 0,
    {
        self.open = !self.open;
        if !self.open {
            self.query = String::new();
            self.page = 0;
        }
    }

    /// Closes the launcher, clears the query and returns to the first page.
    pub fn close(&mut self)
        ensures
            !final(self).open,
            final(self).query@.len() == 0,
            final(self).page == 0,
    {
        self.open = false;
        self.query = String::new();
        self.page = 0;
    }

    /// Replaces the search query and returns to the first page.
    pub fn set_query(&mut self, q: String)
        ensures
            final(self).open == old(self).open,
            final(self).query@ == q@,
            final(self).page == 0,
    {
        self.query = q;
        self.page = 0;
    }

    /// Goes back one page, staying on the first page.
    pub fn prev_page(&mut self, total_pages: usize)
        ensures
            final(self).open == old(self).open,
            final(self).query@ == old(self).query@,
            final(self).page == (if old(self).page > 0 { old(self).page - 1 } else { 0 }),
    {
        if self.page > 0 {
            self.page -= 1;
        }
        let _ = total_pages;
    }

    /// Goes forward one page when another page exists.
    pub fn next_page(&mut self, total_pages: usize)
        ensures
            final(self).open == old(self).open,
            final(self).query@ == old(self).query@,
            final(self).page == (if old(self).page + 1 < total_pages {
                old(self).page + 1
            } else {
                old(self).page as int
            }),
    {
        if total_pages > 0 && self.page < total_pages - 1 {
            self.page += 1;
        }
    }

    /// Jumps to page `idx`.
    pub fn goto_page(&mut self, idx: usize)
        ensures
            final(self).open == old(self).open,
            final(self).query@ == old(self).query@,
            final(self).page == idx,
    {
        self.page = idx;
    }
}

// ── AppGroup ──────────────────────────────────────────────────────────────────

/// The abstract value of an [`AppGroup`].
pub struct AppGroupView {
    pub id: Seq<char>,
    pub label: Seq<char>,
    pub apps: Seq<AppEntryView>,
}

/// A named group of apps displayed in the launcher.
#[derive(Debug)]
pub struct AppGroup {
    pub id: String,
    pub label: String,
    pub apps: Vec<AppEntry>,
}

impl View for AppGroup {
    type V = AppGroupView;

    open spec fn view(&self) -> AppGroupView {
        AppGroupView { id: self.id@, label: self.label@, apps: entry_views(self.apps@) }
    }
}

impl Clone for AppGroup {
    fn clone(&self) -> (r: Self)
        ensures
            r@ == self@,
    {
        AppGroup { id: self.id.clone(), label: self.label.clone(), apps: clone_entries(&self.apps) }
    }
}

/// Views of a sequence of app entries.
pub open spec fn entry_views(s: Seq<AppEntry>) -> Seq<AppEntryView> {
    s.map_values(|e: AppEntry| e@)
}

/// Views of a sequence of groups.
pub open spec fn group_views(s: Seq<AppGroup>) -> Seq<AppGroupView> {
    s.map_values(|g: AppGroup| g@)
}

/// Clones a list of app entries.
pub fn clone_entries(v: &Vec<AppEntry>) -> (r: Vec<AppEntry>)
    ensures
        entry_views(r@) == entry_views(v@),
{
    let mut r: Vec<AppEntry> = Vec::new();
    let mut i: usize = 0;
    while i < v.len()
        invariant
            i <= v@.len(),
            r@.len() == i,
            forall|k: int| 0 <= k < i ==> #[trigger] r@[k]@ == v@[k]@,
        decreases v@.len() - i,
    {
        let c = v[i].clone();
        r.push(c);
        i += 1;
    }
    assert(entry_views(r@) =~= entry_views(v@));
    r
}

/// The group an entry belongs to: its `group`, or "Other" when it has none.
pub open spec fn group_key(e: AppEntryView) -> Seq<char> {
    match e.group {
        Some(g) => g,
        None => "Other"@,
    }
}

/// Distinct group keys of `es`, in order of first appearance.
pub open spec fn group_order(es: Seq<AppEntryView>) -> Seq<Seq<char>>
    decreases es.len(),
{
    if es.len() == 0 {
        Seq::empty()
    } else {
        let o = group_order(es.drop_last());
        let k = group_key(es.last());
        if o.contains(k) {
            o
        } else {
            o.push(k)
        }
    }
}

/// The entries of `es` whose group key is `k`, in order.
pub open spec fn group_members(es: Seq<AppEntryView>, k: Seq<char>) -> Seq<AppEntryView>
    decreases es.len(),
{
    if es.len() == 0 {
        Seq::empty()
    } else {
        let m = group_members(es.drop_last(), k);
        if group_key(es.last()) == k {
            m.push(es.last())
        } else {
            m
        }
    }
}

/// The id of a group labelled `label`: lowercase, with spaces replaced by dashes.
pub open spec fn group_id(label: Seq<char>) -> Seq<char> {
    replace_char(to_lowercase(label), ' ', '-')
}

/// The group view for label `k` over entries `es`.
pub open spec fn group_for(es: Seq<AppEntryView>, k: Seq<char>) -> AppGroupView {
    AppGroupView { id: group_id(k), label: k, apps: group_members(es, k) }
}

/// The launcher groups for `es`: one per distinct group key, in order of first appearance,
/// each holding its entries in order.
pub open spec fn grouped(es: Seq<AppEntryView>) -> Seq<AppGroupView> {
    group_order(es).map_values(|k: Seq<char>| group_for(es, k))
}

proof fn lemma_order_distinct(es: Seq<AppEntryView>)
    ensures
        forall|a: int, b: int|
            0 <= a < b < group_order(es).len() ==> group_order(es)[a] != group_order(es)[b],
    decreases es.len(),
{
    if es.len() > 0 {
        lemma_order_distinct(es.drop_last());
        let o = group_order(es.drop_last());
        let k = group_key(es.last());
        if !o.contains(k) {
            assert forall|a: int, b: int| 0 <= a < b < group_order(es).len() implies group_order(
                es,
            )[a] != group_order(es)[b] by {
                if b == o.len() {
                    if o[a] == k {
                        assert(o.contains(k));
                    }
                }
            }
        }
    }
}

proof fn lemma_members_absent(es: Seq<AppEntryView>, k: Seq<char>)
    requires
        !group_order(es).contains(k),
    ensures
        group_members(es, k) == Seq::<AppEntryView>::empty(),
    decreases es.len(),
{
    if es.len() > 0 {
        let o = group_order(es.drop_last());
        if o.contains(k) {
            let j = choose|j: int| 0 <= j < o.len() && o[j] == k;
            if !o.contains(group_key(es.last())) {
                assert(group_order(es)[j] == k);
            } else {
                assert(group_order(es)[j] == k);
            }
        }
        lemma_members_absent(es.drop_last(), k);
        if group_key(es.last()) == k {
            if !o.contains(k) {
                assert(group_order(es).last() == k);
            }
        }
    }
}

proof fn lemma_order_covers(es: Seq<AppEntryView>)
    ensures
        forall|i: int| 0 <= i < es.len() ==> group_order(es).contains(#[trigger] group_key(es[i])),
    decreases es.len(),
{
    if es.len() > 0 {
        let t = es.drop_last();
        lemma_order_covers(t);
        let o = group_order(t);
        assert forall|i: int| 0 <= i < es.len() implies group_order(es).contains(#[trigger] group_key(es[i])) by {
            if i < t.len() {
                assert(es[i] == t[i]);
                assert(o.contains(group_key(t[i])));
                let j = choose|j: int| 0 <= j < o.len() && o[j] == group_key(t[i]);
                assert(group_order(es)[j] == o[j]);
            } else {
                if o.contains(group_key(es.last())) {
                } else {
                    assert(group_order(es)[o.len() as int] == group_key(es.last()));
                }
            }
        }
    }
}

proof fn lemma_members_cover(es: Seq<AppEntryView>)
    ensures
        forall|i: int| 0 <= i < es.len() ==> group_members(es, group_key(es[i])).contains(#[trigger] es[i]),
    decreases es.len(),
{
    if es.len() > 0 {
        let t = es.drop_last();
        lemma_members_cover(t);
        assert forall|i: int| 0 <= i < es.len() implies group_members(es, group_key(es[i])).contains(#[trigger] es[i]) by {
            let k = group_key(es[i]);
            if i < t.len() {
                assert(es[i] == t[i]);
                let m = group_members(t, k);
                assert(m.contains(t[i]));
                let j = choose|j: int| 0 <= j < m.len() && m[j] == t[i];
                if group_key(es.last()) == k {
                    assert(group_members(es, k)[j] == m[j]);
                } else {
                    assert(group_members(es, k) == m);
                }
            } else {
                let m = group_members(t, k);
                assert(group_members(es, k) == m.push(es.last()));
                assert(group_members(es, k)[m.len() as int] == es[i]);
            }
        }
    }
}

/// The launcher groups cover every app: group labels are distinct, and each app is in
/// the group labelled with its group key ("Other" without one).
pub proof fn law_groups_cover_apps(es: Seq<AppEntryView>)
    ensures
        forall|a: int, b: int|
            0 <= a < b < grouped(es).len() ==> grouped(es)[a].label != grouped(es)[b].label,
        forall|i: int|
            0 <= i < es.len() ==> exists|g: int|
                0 <= g < grouped(es).len() && grouped(es)[g].label == group_key(#[trigger] es[i])
                    && (#[trigger] grouped(es)[g]).apps.contains(es[i]),
{
    lemma_order_distinct(es);
    lemma_order_covers(es);
    lemma_members_cover(es);
    assert forall|i: int| 0 <= i < es.len() implies exists|g: int|
        0 <= g < grouped(es).len() && grouped(es)[g].label == group_key(#[trigger] es[i])
            && (#[trigger] grouped(es)[g]).apps.contains(es[i]) by {
        let o = group_order(es);
        assert(o.contains(group_key(es[i])));
        let g = choose|g: int| 0 <= g < o.len() && o[g] == group_key(es[i]);
        assert(grouped(es)[g] == group_for(es, o[g]));
    }
}

/// Key of an entry as an owned string.
fn entry_key(e: &AppEntry) -> (k: String)
    ensures
        k@ == group_key(e@),
{
    match &e.group {
        Some(g) => g.clone(),
        None => owned("Other"),
    }
}

/// Whether an entry matches the (already lowercased) launcher query `q`.
pub open spec fn entry_matches(e: AppEntryView, q: Seq<char>) -> bool {
    q.len() == 0 || contains_seq(to_lowercase(e.id), q) || contains_seq(to_lowercase(e.label_key), q)
}

/// The entries of `es` that match `q`, in order.
pub open spec fn matching_entries(es: Seq<AppEntryView>, q: Seq<char>) -> Seq<AppEntryView>
    decreases es.len(),
{
    if es.len() == 0 {
        Seq::empty()
    } else {
        let m = matching_entries(es.drop_last(), q);
        if entry_matches(es.last(), q) {
            m.push(es.last())
        } else {
            m
        }
    }
}

/// The empty query keeps every entry.
proof fn lemma_empty_query_keeps_all(es: Seq<AppEntryView>, q: Seq<char>)
    requires
        q.len() == 0,
    ensures
        matching_entries(es, q) == es,
    decreases es.len(),
{
    if es.len() > 0 {
        lemma_empty_query_keeps_all(es.drop_last(), q);
        assert(es.drop_last().push(es.last()) =~= es);
    }
}

proof fn lemma_matching_entries(es: Seq<AppEntryView>, q: Seq<char>)
    ensures
        forall|i: int| 0 <= i < es.len() && entry_matches(es[i], q) ==> matching_entries(es, q).contains(#[trigger] es[i]),
        forall|x: AppEntryView| #[trigger] matching_entries(es, q).contains(x) ==> es.contains(x) && entry_matches(x, q),
    decreases es.len(),
{
    if es.len() > 0 {
        let t = es.drop_last();
        lemma_matching_entries(t, q);
        let m = matching_entries(t, q);
        assert forall|i: int| 0 <= i < es.len() && entry_matches(es[i], q) implies matching_entries(es, q).contains(#[trigger] es[i]) by {
            if i < t.len() {
                assert(es[i] == t[i]);
                assert(m.contains(t[i]));
                let j = choose|j: int| 0 <= j < m.len() && m[j] == t[i];
                if entry_matches(es.last(), q) {
                    assert(matching_entries(es, q)[j] == m[j]);
                }
            } else {
                assert(matching_entries(es, q)[m.len() as int] == es[i]);
            }
        }
        assert forall|x: AppEntryView| #[trigger] matching_entries(es, q).contains(x) implies es.contains(x) && entry_matches(x, q) by {
            let j = choose|j: int| 0 <= j < matching_entries(es, q).len() && matching_entries(es, q)[j] == x;
            if j < m.len() {
                assert(m[j] == x);
                assert(m.contains(x));
                let k = choose|k: int| 0 <= k < t.len() && t[k] == x;
                assert(es[k] == x);
            } else {
                assert(x == es.last());
                assert(es[es.len() - 1] == x);
            }
        }
    }
}

proof fn lemma_members_from(es: Seq<AppEntryView>, k: Seq<char>)
    ensures
        forall|x: AppEntryView| #[trigger] group_members(es, k).contains(x) ==> es.contains(x),
    decreases es.len(),
{
    if es.len() > 0 {
        let t = es.drop_last();
        lemma_members_from(t, k);
        let m = group_members(t, k);
        assert forall|x: AppEntryView| #[trigger] group_members(es, k).contains(x) implies es.contains(x) by {
            let j = choose|j: int| 0 <= j < group_members(es, k).len() && group_members(es, k)[j] == x;
            if j < m.len() {
                assert(m[j] == x);
                assert(m.contains(x));
                let i = choose|i: int| 0 <= i < t.len() && t[i] == x;
                assert(es[i] == x);
            } else {
                assert(es[es.len() - 1] == x);
            }
        }
    }
}

/// What the launcher search keeps, for a lowercased query `q`: every app whose lowercased
/// id or lowercased label key contains `q` (every app when `q` is empty) is in one of the
/// groups, and every app in the groups is one of the apps and matches in that way.
pub proof fn law_filtered_membership(es: Seq<AppEntryView>, q: Seq<char>)
    ensures
        forall|i: int|
            0 <= i < es.len() && (q.len() == 0 || contains_seq(to_lowercase(es[i].id), q)
                || contains_seq(to_lowercase(es[i].label_key), q)) ==> exists|g: int|
                0 <= g < grouped(matching_entries(es, q)).len()
                    && (#[trigger] grouped(matching_entries(es, q))[g]).apps.contains(#[trigger] es[i]),
        forall|g: int, a: int|
            0 <= g < grouped(matching_entries(es, q)).len() && 0 <= a < grouped(
                matching_entries(es, q),
            )[g].apps.len() ==> {
                let x = #[trigger] grouped(matching_entries(es, q))[g].apps[a];
                &&& es.contains(x)
                &&& (q.len() == 0 || contains_seq(to_lowercase(x.id), q) || contains_seq(
                    to_lowercase(x.label_key),
                    q,
                ))
            },
{
    let m = matching_entries(es, q);
    lemma_matching_entries(es, q);
    law_groups_cover_apps(m);
    assert forall|i: int|
        0 <= i < es.len() && (q.len() == 0 || contains_seq(to_lowercase(es[i].id), q)
            || contains_seq(to_lowercase(es[i].label_key), q)) implies exists|g: int|
            0 <= g < grouped(m).len() && (#[trigger] grouped(m)[g]).apps.contains(#[trigger] es[i]) by {
        assert(entry_matches(es[i], q));
        assert(m.contains(es[i]));
        let j = choose|j: int| 0 <= j < m.len() && m[j] == es[i];
        let g = choose|g: int|
            0 <= g < grouped(m).len() && grouped(m)[g].label == group_key(#[trigger] m[j])
                && (#[trigger] grouped(m)[g]).apps.contains(m[j]);
        assert(grouped(m)[g].apps.contains(es[i]));
    }
    assert forall|g: int, a: int|
        0 <= g < grouped(m).len() && 0 <= a < grouped(m)[g].apps.len() implies {
            let x = #[trigger] grouped(m)[g].apps[a];
            &&& es.contains(x)
            &&& (q.len() == 0 || contains_seq(to_lowercase(x.id), q) || contains_seq(
                to_lowercase(x.label_key),
                q,
            ))
        } by {
        let k = group_order(m)[g];
        assert(grouped(m)[g] == group_for(m, k));
        let x = grouped(m)[g].apps[a];
        lemma_members_from(m, k);
        assert(group_members(m, k).contains(x));
        assert(m.contains(x));
        assert(entry_matches(x, q));
    }
}

/// Number of pages needed for `n` groups (at least one page).
pub open spec fn pages_for(n: int) -> int {
    if n <= 0 {
        1
    } else {
        (n + GROUPS_PER_PAGE - 1) / GROUPS_PER_PAGE as int
    }
}

/// The groups shown on `page`.
pub open spec fn page_of<T>(groups: Seq<T>, page: int) -> Seq<T> {
    let start = page * GROUPS_PER_PAGE;
    if start >= groups.len() {
        Seq::empty()
    } else {
        let end = if start + GROUPS_PER_PAGE <= groups.len() {
            start + GROUPS_PER_PAGE
        } else {
            groups.len() as int
        };
        groups.subrange(start, end)
    }
}

/// The groups of the first `p` pages, one page after the other.
pub open spec fn pages_upto<T>(groups: Seq<T>, p: nat) -> Seq<T>
    decreases p,
{
    if p == 0 {
        Seq::empty()
    } else {
        pages_upto(groups, (p - 1) as nat) + page_of(groups, p - 1)
    }
}

proof fn lemma_pages_upto<T>(groups: Seq<T>, p: nat)
    ensures
        pages_upto(groups, p) == groups.take(
            if p * GROUPS_PER_PAGE <= groups.len() { (p * GROUPS_PER_PAGE) as int } else { groups.len() as int },
        ),
    decreases p,
{
    if p > 0 {
        lemma_pages_upto(groups, (p - 1) as nat);
        let prev = if (p - 1) * GROUPS_PER_PAGE <= groups.len() {
            ((p - 1) * GROUPS_PER_PAGE) as int
        } else {
            groups.len() as int
        };
        let start = (p - 1) * GROUPS_PER_PAGE;
        if start >= groups.len() {
            assert(groups.take(prev) =~= groups.take(groups.len() as int));
            assert(pages_upto(groups, p) =~= groups.take(groups.len() as int));
        } else {
            let end = if start + GROUPS_PER_PAGE <= groups.len() {
                start + GROUPS_PER_PAGE
            } else {
                groups.len() as int
            };
            assert(groups.take(start) + groups.subrange(start, end) =~= groups.take(end));
        }
    }
}

/// The launcher's pages cover the groups exactly once: the pages before `total_pages`,
/// one after the other, are the groups in order; every later page is empty; and when
/// there are groups, no page before `total_pages` is empty.
pub proof fn law_pages_cover_groups<T>(groups: Seq<T>)
    ensures
        pages_upto(groups, pages_for(groups.len() as int) as nat) == groups,
        forall|p: int| p >= pages_for(groups.len() as int) ==> #[trigger] page_of(groups, p).len() == 0,
        groups.len() > 0 ==> forall|p: int|
            0 <= p < pages_for(groups.len() as int) ==> #[trigger] page_of(groups, p).len() > 0,
{
    let n = groups.len() as int;
    let t = pages_for(n);
    assert(t >= 1);
    assert(t * GROUPS_PER_PAGE >= n);
    lemma_pages_upto(groups, t as nat);
    assert(groups.take(n) =~= groups);
    assert forall|p: int| p >= t implies #[trigger] page_of(groups, p).len() == 0 by {
        assert(p * GROUPS_PER_PAGE >= t * GROUPS_PER_PAGE) by (nonlinear_arith)
            requires
                p >= t,
        ;
    }
    if n > 0 {
        assert forall|p: int| 0 <= p < t implies #[trigger] page_of(groups, p).len() > 0 by {
            assert(p * GROUPS_PER_PAGE <= (t - 1) * GROUPS_PER_PAGE) by (nonlinear_arith)
                requires
                    p <= t - 1,
            ;
            assert((t - 1) * GROUPS_PER_PAGE < n);
        }
    }
}

impl AppGroup {
    /// Groups of the entries whose id or label key contains the lowercased query
    /// (case-insensitively); an empty query keeps every entry.
    pub fn filtered(entries: &[AppEntry], query: &str) -> (groups: Vec<AppGroup>)
        ensures
            group_views(groups@) == grouped(
                matching_entries(entry_views(entries@), to_lowercase(query@)),
            ),
            query@.len() == 0 ==> group_views(groups@) == grouped(entry_views(entries@)),
    {
        let q = lowercase(query);
        proof {
            if query@.len() == 0 {
                lemma_empty_query_keeps_all(entry_views(entries@), q@);
            }
        }
        let q_empty = q.as_str().unicode_len() == 0;
        let ghost es = entry_views(entries@);
        let mut kept: Vec<AppEntry> = Vec::new();
        let mut i: usize = 0;
        while i < entries.len()
            invariant
                i <= entries@.len(),
                es == entry_views(entries@),
                q_empty == (q@.len() == 0),
                entry_views(kept@) == matching_entries(es.take(i as int), q@),
            decreases entries@.len() - i,
        {
            let e = &entries[i];
            assert(es.take(i + 1).drop_last() =~= es.take(i as int));
            assert(es.take(i + 1).last() == e@);
            let keep = if q_empty {
                true
            } else {
                let id_low = lowercase(e.id.as_str());
                let label_low = lowercase(e.label_key.as_str());
                str_contains(id_low.as_str(), q.as_str()) || str_contains(
                    label_low.as_str(),
                    q.as_str(),
                )
            };
            if keep {
                let c = e.clone();
                let ghost before = kept@;
                kept.push(c);
                assert(entry_views(kept@) =~= entry_views(before).push(e@));
            }
            i += 1;
        }
        assert(es.take(entries@.len() as int) =~= es);
        Self::from_entries(kept.as_slice())
    }

    /// The groups shown on `page` (`GROUPS_PER_PAGE` per page); empty past the last page.
    pub fn page_slice(groups: &[AppGroup], page: usize) -> (slice: &[AppGroup])
        ensures
            slice@ == page_of(groups@, page as int),
    {
        let len = groups.len();
        let pages = len / GROUPS_PER_PAGE + if len % GROUPS_PER_PAGE != 0 { 1 } else { 0 };
        if page >= pages {
            assert(page * GROUPS_PER_PAGE >= len) by (nonlinear_arith)
                requires
                    page >= pages,
                    pages == len / 3 + if len % 3 != 0 { 1int } else { 0int },
            ;
            let empty = slice_subrange(groups, len, len);
            assert(empty@ =~= page_of(groups@, page as int));
            return empty;
        }
        assert(page * GROUPS_PER_PAGE < len) by (nonlinear_arith)
            requires
                page < pages,
                pages == len / 3 + if len % 3 != 0 { 1int } else { 0int },
        ;
        let start = page * GROUPS_PER_PAGE;
        let end = if len - start >= GROUPS_PER_PAGE { start + GROUPS_PER_PAGE } else { len };
        slice_subrange(groups, start, end)
    }

    /// Total number of pages: the group count divided by `GROUPS_PER_PAGE`, rounded up,
    /// and at least one.
    pub fn total_pages(groups: &[AppGroup]) -> (n: usize)
        ensures
            n == pages_for(groups@.len() as int),
    {
        let len = groups.len();
        let n = len / GROUPS_PER_PAGE + if len % GROUPS_PER_PAGE != 0 { 1 } else { 0 };
        if n == 0 {
            1
        } else {
            n
        }
    }

    /// Builds groups from a flat app list using `AppEntry::group`.
    /// Apps without a group fall into "Other". Groups appear in order of first
    /// appearance, and each keeps its apps in their original order.
    pub fn from_entries(entries: &[AppEntry]) -> (groups: Vec<AppGroup>)
        ensures
            group_views(groups@) == grouped(entry_views(entries@)),
    {
        let ghost es = entry_views(entries@);
        let mut groups: Vec<AppGroup> = Vec::new();
        let mut i: usize = 0;
        while i < entries.len()
            invariant
                i <= entries@.len(),
                es == entry_views(entries@),
                group_views(groups@) == grouped(es.take(i as int)),
            decreases entries@.len() - i,
        {
            let e = &entries[i];
            let key = entry_key(e);
            let ghost pre = es.take(i as int);
            let ghost post = es.take(i + 1);
            let ghost order = group_order(pre);
            assert(post.drop_last() =~= pre);
            assert(post.last() == e@);
            let mut j: usize = 0;
            let mut found = false;
            assert(group_views(groups@).len() == groups@.len());
            while j < groups.len()
                invariant
                    j <= groups@.len(),
                    groups@.len() == order.len(),
                    group_views(groups@) == grouped(pre),
                    order == group_order(pre),
                    forall|m: int| 0 <= m < j ==> order[m] != key@,
                    found ==> j < groups@.len() && order[j as int] == key@,
                ensures
                    groups@.len() == order.len(),
                    found ==> j < groups@.len() && order[j as int] == key@,
                    !found ==> forall|m: int| 0 <= m < groups@.len() ==> order[m] != key@,
                decreases groups@.len() - j,
            {
                assert(group_views(groups@)[j as int] == groups@[j as int]@);
                assert(grouped(pre)[j as int] == group_for(pre, order[j as int]));
                if groups[j].label == key {
                    assert(groups@[j as int].label@ == key@);
                    found = true;
                    break;
                }
                j += 1;
            }
            if found {
                assert(order.contains(key@));
                assert(group_order(post) == order);
                assert(grouped(pre)[j as int] == group_for(pre, key@));
                let ghost gv = groups@[j as int]@;
                let ghost orig = groups@;
                assert(group_views(groups@)[j as int] == gv);
                let mut g = groups.remove(j);
                assert(g@ == gv);
                let c = e.clone();
                let ghost before_apps = g.apps@;
                g.apps.push(c);
                assert(g.apps@ == before_apps.push(c));
                assert(entry_views(g.apps@) =~= group_members(pre, key@).push(e@));
                groups.insert(j, g);
                proof {
                    lemma_order_distinct(pre);
                    assert forall|m: int| 0 <= m < order.len() implies #[trigger] group_views(
                        groups@,
                    )[m] == grouped(post)[m] by {
                        assert(group_views(groups@)[m] == groups@[m]@);
                        assert(grouped(post)[m] == group_for(post, order[m]));
                        if m != j {
                            assert(groups@[m] == orig[m]);
                            assert(order[m] != key@);
                            assert(grouped(pre)[m] == group_for(pre, order[m]));
                            assert(group_views(orig)[m] == grouped(pre)[m]);
                        }
                    }
                    assert(group_views(groups@) =~= grouped(post));
                }
            } else {
                assert(!order.contains(key@));
                proof {
                    lemma_members_absent(pre, key@);
                }
                let lower = lowercase(key.as_str());
                let id = replace_char_exec(lower.as_str(), ' ', '-');
                let mut apps: Vec<AppEntry> = Vec::new();
                apps.push(e.clone());
                let label = key;
                assert(group_order(post) == order.push(label@));
                assert(entry_views(apps@) =~= group_members(post, label@));
                let ghost old_groups = groups@;
                groups.push(AppGroup { id, label, apps });
                proof {
                    assert forall|m: int| 0 <= m < order.len() + 1 implies #[trigger] group_views(
                        groups@,
                    )[m] == grouped(post)[m] by {
                        assert(group_views(groups@)[m] == groups@[m]@);
                        assert(group_order(post)[m] == order.push(key@)[m]);
                        assert(grouped(post)[m] == group_for(post, group_order(post)[m]));
                        if m < order.len() {
                            assert(order[m] != key@);
                            assert(grouped(pre)[m] == group_for(pre, order[m]));
                            assert(group_views(old_groups)[m] == grouped(pre)[m]);
                        }
                    }
                    assert(group_views(groups@) =~= grouped(post));
                }
            }
            i += 1;
        }
        assert(es.take(entries@.len() as int) =~= es);
        groups
    }
}

} // verus!
