//! Notifications: the toast stack and the persistent notification history (bell panel).
use vstd::prelude::*;
use crate::taskbar::{clone_opt, opt_view};
use crate::text::owned;

verus! {

/// At most this many toasts are visible at once.
pub const MAX_TOASTS: usize = 5;

/// At most this many entries are kept in the history.
pub const MAX_HISTORY: usize = 50;

// ── NotificationKind ──────────────────────────────────────────────────────────

/// Severity level of a notification.
#[derive(Clone, Copy, Debug, PartialEq, Eq, Structural)]
pub enum NotificationKind {
    Info,
    Success,
    Warning,
    Error,
}

impl Default for NotificationKind {
    fn default() -> (k: Self)
        ensures
            k == NotificationKind::Info,
    {
        NotificationKind::Info
    }
}

/// The accent colour of each kind.
pub open spec fn accent_of(kind: NotificationKind) -> Seq<char> {
    match kind {
        NotificationKind::Info => "#06b6d4"@,
        NotificationKind::Success => "#22c55e"@,
        NotificationKind::Warning => "#f59e0b"@,
        NotificationKind::Error => "#ef4444"@,
    }
}

/// Trait that gives a notification kind its visual identity.
pub trait NotificationStyle {
    fn accent_color(&self) -> &'static str;
}

impl NotificationStyle for NotificationKind {
    fn accent_color(&self) -> (c: &'static str)
        ensures
            c@ == accent_of(*self),
    {
        match self {
            NotificationKind::Info => "#06b6d4",
            NotificationKind::Success => "#22c55e",
            NotificationKind::Warning => "#f59e0b",
            NotificationKind::Error => "#ef4444",
        }
    }
}

// ── Notification ──────────────────────────────────────────────────────────────

/// The abstract value of a [`Notification`].
pub struct NotificationView {
    pub id: u64,
    pub kind: NotificationKind,
    pub title: Seq<char>,
    pub body: Option<Seq<char>>,
}

/// A single notification entry.
#[derive(Debug)]
pub struct Notification {
    pub id: u64,
    pub kind: NotificationKind,
    pub title: String,
    pub body: Option<String>,
}

impl View for Notification {
    type V = NotificationView;

    open spec fn view(&self) -> NotificationView {
        NotificationView { id: self.id, kind: self.kind, title: self.title@, body: opt_view(self.body) }
    }
}

impl Clone for Notification {
    fn clone(&self) -> (r: Self)
        ensures
            r@ == self@,
    {
        Notification {
            id: self.id,
            kind: self.kind,
            title: self.title.clone(),
            body: clone_opt(&self.body),
        }
    }
}

/// Views of a sequence of notifications.
pub open spec fn notification_views(s: Seq<Notification>) -> Seq<NotificationView> {
    s.map_values(|n: Notification| n@)
}

/// `s` without the notifications whose id is `id`, in order.
pub open spec fn without_id(s: Seq<NotificationView>, id: u64) -> Seq<NotificationView>
    decreases s.len(),
{
    if s.len() == 0 {
        Seq::empty()
    } else {
        let rest = without_id(s.drop_last(), id);
        if s.last().id == id {
            rest
        } else {
            rest.push(s.last())
        }
    }
}

/// Ids strictly increase along `s` and all lie below `next`.
pub open spec fn ids_increasing_below(s: Seq<NotificationView>, next: u64) -> bool {
    &&& forall|a: int, b: int| 0 <= a < b < s.len() ==> s[a].id < s[b].id
    &&& forall|a: int| 0 <= a < s.len() ==> s[a].id < next
}

// ── NotificationManager ───────────────────────────────────────────────────────

/// Manages the stack of active notifications (toasts).
#[derive(Clone)]
pub struct NotificationManager {
    next_id: u64,
    items: Vec<Notification>,
}

impl Default for NotificationManager {
    fn default() -> (m: Self)
        ensures
            m.wf(),
            m.next_id() == 0,
            m.items_view().len() == 0,
    {
        NotificationManager { next_id: 0, items: Vec::new() }
    }
}

impl NotificationManager {
    /// The id the next pushed notification receives.
    pub closed spec fn next_id(&self) -> u64 {
        self.next_id
    }

    /// The visible notifications, oldest first.
    pub closed spec fn items_view(&self) -> Seq<NotificationView> {
        notification_views(self.items@)
    }

    /// At most `MAX_TOASTS` notifications, with strictly increasing ids below `next_id`.
    pub closed spec fn wf(&self) -> bool {
        &&& self.items@.len() <= MAX_TOASTS
        &&& ids_increasing_below(self.items_view(), self.next_id)
    }

    /// Pushes a new notification and returns its id. When more than `MAX_TOASTS`
    /// notifications would be visible, the oldest one is dropped.
    pub fn push(&mut self, kind: NotificationKind, title: &str, body: Option<String>) -> (id: u64)
        requires
            old(self).wf(),
            old(self).next_id() < u64::MAX,
        ensures
            final(self).wf(),
            id == old(self).next_id(),
            final(self).next_id() == old(self).next_id() + 1,
            ({
                let appended = old(self).items_view().push(
                    NotificationView { id, kind, title: title@, body: opt_view(body) },
                );
                final(self).items_view() == if appended.len() > MAX_TOASTS {
                    appended.drop_first()
                } else {
                    appended
                }
            }),
    {
        let id = self.next_id;
        self.next_id = self.next_id + 1;
        let n = Notification { id, kind, title: owned(title), body };
        let ghost before = self.items@;
        self.items.push(n);
        assert(notification_views(self.items@) =~= notification_views(before).push(n@));
        if self.items.len() > MAX_TOASTS {
            let ghost full = self.items@;
            self.items.remove(0);
            assert(notification_views(self.items@) =~= notification_views(full).drop_first());
        }
        id
    }

    /// Removes the notification with the given id (if it is still visible).
    pub fn dismiss(&mut self, id: u64)
        requires
            old(self).wf(),
        ensures
            final(self).wf(),
            final(self).next_id() == old(self).next_id(),
            final(self).items_view() == without_id(old(self).items_view(), id),
    {
        let ghost old_items = self.items_view();
        let mut kept: Vec<Notification> = Vec::new();
        let mut i: usize = 0;
        while i < self.items.len()
            invariant
                i <= self.items@.len(),
                old_items == notification_views(self.items@),
                notification_views(kept@) == without_id(old_items.take(i as int), id),
                kept@.len() <= i,
                forall|a: int| 0 <= a < kept@.len() ==> exists|b: int| 0 <= b < i && #[trigger] kept@[a]@ == old_items[b],
            decreases self.items@.len() - i,
        {
            assert(old_items.take(i + 1).drop_last() =~= old_items.take(i as int));
            assert(old_items.take(i + 1).last() == self.items@[i as int]@);
            if self.items[i].id != id {
                let c = self.items[i].clone();
                let ghost before = kept@;
                kept.push(c);
                assert(notification_views(kept@) =~= notification_views(before).push(c@));
                assert(kept@[kept@.len() - 1]@ == old_items[i as int]);
            }
            i += 1;
        }
        assert(old_items.take(self.items@.len() as int) =~= old_items);
        proof {
            lemma_without_id_increasing(old_items, id, self.next_id);
        }
        self.items = kept;
    }

    /// The visible notifications, oldest first.
    pub fn items(&self) -> (items: &[Notification])
        ensures
            notification_views(items@) == self.items_view(),
    {
        self.items.as_slice()
    }
}

proof fn lemma_without_id_increasing(s: Seq<NotificationView>, id: u64, next: u64)
    requires
        ids_increasing_below(s, next),
    ensures
        ids_increasing_below(without_id(s, id), next),
        without_id(s, id).len() <= s.len(),
        forall|a: int| 0 <= a < without_id(s, id).len() ==> #[trigger] without_id(s, id)[a].id != id,
        forall|a: int|
            0 <= a < without_id(s, id).len() ==> exists|b: int|
                0 <= b < s.len() && s[b] == #[trigger] without_id(s, id)[a],
    decreases s.len(),
{
    if s.len() > 0 {
        let p = s.drop_last();
        assert(ids_increasing_below(p, next));
        lemma_without_id_increasing(p, id, next);
        let r = without_id(p, id);
        assert forall|a: int| 0 <= a < r.len() implies #[trigger] r[a].id < s.last().id by {
            let b = choose|b: int| 0 <= b < p.len() && p[b] == r[a];
            assert(s[b] == p[b]);
        }
        assert forall|a: int|
            0 <= a < without_id(s, id).len() implies exists|b: int|
                0 <= b < s.len() && s[b] == #[trigger] without_id(s, id)[a] by {
            if a < r.len() {
                let b = choose|b: int| 0 <= b < p.len() && p[b] == r[a];
                assert(s[b] == p[b]);
            } else {
                assert(s[s.len() - 1] == s.last());
            }
        }
    }
}

// ── NotificationHistory ───────────────────────────────────────────────────────

/// The abstract value of a [`HistoryEntry`].
pub struct HistoryEntryView {
    pub id: u64,
    pub kind: NotificationKind,
    pub title: Seq<char>,
    pub body: Option<Seq<char>>,
    pub read: bool,
}

/// A persistent notification history entry.
#[derive(Debug)]
pub struct HistoryEntry {
    pub id: u64,
    pub kind: NotificationKind,
    pub title: String,
    pub body: Option<String>,
    pub read: bool,
}

impl View for HistoryEntry {
    type V = HistoryEntryView;

    open spec fn view(&self) -> HistoryEntryView {
        HistoryEntryView {
            id: self.id,
            kind: self.kind,
            title: self.title@,
            body: opt_view(self.body),
            read: self.read,
        }
    }
}

impl Clone for HistoryEntry {
    fn clone(&self) -> (r: Self)
        ensures
            r@ == self@,
    {
        HistoryEntry {
            id: self.id,
            kind: self.kind,
            title: self.title.clone(),
            body: clone_opt(&self.body),
            read: self.read,
        }
    }
}

/// Views of a sequence of history entries.
pub open spec fn history_views(s: Seq<HistoryEntry>) -> Seq<HistoryEntryView> {
    s.map_values(|e: HistoryEntry| e@)
}

/// Number of unread entries.
pub open spec fn unread(s: Seq<HistoryEntryView>) -> nat
    decreases s.len(),
{
    if s.len() == 0 {
        0
    } else {
        unread(s.drop_last()) + if s.last().read { 0nat } else { 1nat }
    }
}

/// `s` with every entry marked read.
pub open spec fn all_read(s: Seq<HistoryEntryView>) -> Seq<HistoryEntryView> {
    s.map_values(|e: HistoryEntryView| HistoryEntryView { read: true, ..e })
}

/// Manages the notification history (bell panel), newest first.
#[derive(Clone)]
pub struct NotificationHistory {
    next_id: u64,
    entries: Vec<HistoryEntry>,
}

impl Default for NotificationHistory {
    fn default() -> (h: Self)
        ensures
            h.wf(),
            h.next_id() == 0,
            h.entries_view().len() == 0,
    {
        NotificationHistory { next_id: 0, entries: Vec::new() }
    }
}

impl NotificationHistory {
    /// The id the next pushed entry receives.
    pub closed spec fn next_id(&self) -> u64 {
        self.next_id
    }

    /// The entries, newest first.
    pub closed spec fn entries_view(&self) -> Seq<HistoryEntryView> {
        history_views(self.entries@)
    }

    /// At most `MAX_HISTORY` entries, with strictly decreasing ids below `next_id`.
    pub closed spec fn wf(&self) -> bool {
        &&& self.entries@.len() <= MAX_HISTORY
        &&& forall|a: int, b: int|
            0 <= a < b < self.entries@.len() ==> self.entries@[a].id > self.entries@[b].id
        &&& forall|a: int| 0 <= a < self.entries@.len() ==> self.entries@[a].id < self.next_id
    }

    /// Records a new unread entry at the front; only the newest `MAX_HISTORY` are kept.
    pub fn push(&mut self, kind: NotificationKind, title: &str, body: Option<String>)
        requires
            old(self).wf(),
            old(self).next_id() < u64::MAX,
        ensures
            final(self).wf(),
            final(self).next_id() == old(self).next_id() + 1,
            ({
                let front = seq![
                    HistoryEntryView {
                        id: old(self).next_id(),
                        kind,
                        title: title@,
                        body: opt_view(body),
                        read: false,
                    },
                ] + old(self).entries_view();
                final(self).entries_view() == if front.len() > MAX_HISTORY {
                    front.take(MAX_HISTORY as int)
                } else {
                    front
                }
            }),
    {
        let id = self.next_id;
        self.next_id = self.next_id + 1;
        let e = HistoryEntry { id, kind, title: owned(title), body, read: false };
        let ghost before = self.entries@;
        self.entries.insert(0, e);
        assert(history_views(self.entries@) =~= seq![e@] + history_views(before));
        if self.entries.len() > MAX_HISTORY {
            let ghost full = self.entries@;
            self.entries.truncate(MAX_HISTORY);
            assert(history_views(self.entries@) =~= history_views(full).take(MAX_HISTORY as int));
        }
    }

    /// Marks every entry as read.
    pub fn mark_all_read(&mut self)
        requires
            old(self).wf(),
        ensures
            final(self).wf(),
            final(self).next_id() == old(self).next_id(),
            final(self).entries_view() == all_read(old(self).entries_view()),
    {
        let ghost orig = self.entries@;
        let mut i: usize = 0;
        while i < self.entries.len()
            invariant
                i <= self.entries@.len(),
                self.entries@.len() == orig.len(),
                self.next_id == old(self).next_id,
                orig == old(self).entries@,
                forall|k: int| 0 <= k < i ==> #[trigger] self.entries@[k]@ == (HistoryEntryView { read: true, ..orig[k]@ }),
                forall|k: int| i <= k < orig.len() ==> #[trigger] self.entries@[k] == orig[k],
            decreases self.entries@.len() - i,
        {
            let mut e = self.entries[i].clone();
            e.read = true;
            self.entries.set(i, e);
            i += 1;
        }
        assert(history_views(self.entries@) =~= all_read(history_views(orig)));
        assert forall|k: int| 0 <= k < orig.len() implies #[trigger] self.entries@[k].id == orig[k].id by {
            assert(self.entries@[k]@.id == orig[k]@.id);
        }
    }

    /// Number of unread entries.
    pub fn unread_count(&self) -> (n: usize)
        ensures
            n == unread(self.entries_view()),
    {
        let ghost views = self.entries_view();
        let mut n: usize = 0;
        let mut i: usize = 0;
        while i < self.entries.len()
            invariant
                i <= self.entries@.len(),
                views == history_views(self.entries@),
                n == unread(views.take(i as int)),
                n <= i,
            decreases self.entries@.len() - i,
        {
            assert(views.take(i + 1).drop_last() =~= views.take(i as int));
            if !self.entries[i].read {
                n += 1;
            }
            i += 1;
        }
        assert(views.take(self.entries@.len() as int) =~= views);
        n
    }

    /// The entries, newest first.
    pub fn entries(&self) -> (entries: &[HistoryEntry])
        ensures
            history_views(entries@) == self.entries_view(),
    {
        self.entries.as_slice()
    }
}

// ── Laws ──────────────────────────────────────────────────────────────────────

proof fn lemma_unread_all_read(s: Seq<HistoryEntryView>)
    ensures
        unread(all_read(s)) == 0,
    decreases s.len(),
{
    if s.len() > 0 {
        assert(all_read(s).drop_last() =~= all_read(s.drop_last()));
        lemma_unread_all_read(s.drop_last());
    }
}

/// After marking everything read, no entry is unread.
pub proof fn law_mark_all_read_clears_unread(before: NotificationHistory, after: NotificationHistory)
    requires
        after.entries_view() == all_read(before.entries_view()),
    ensures
        unread(after.entries_view()) == 0,
{
    lemma_unread_all_read(before.entries_view());
}

/// A dismissed id is no longer visible, and every remaining toast was visible before.
pub proof fn law_dismiss_removes_only_that_id(before: NotificationManager, id: u64, after: NotificationManager)
    requires
        before.wf(),
        after.items_view() == without_id(before.items_view(), id),
    ensures
        forall|a: int| 0 <= a < after.items_view().len() ==> #[trigger] after.items_view()[a].id != id,
        forall|a: int| 0 <= a < after.items_view().len() ==> before.items_view().contains(#[trigger] after.items_view()[a]),
{
    lemma_without_id_increasing(before.items_view(), id, before.next_id());
    assert forall|a: int| 0 <= a < after.items_view().len() implies before.items_view().contains(#[trigger] after.items_view()[a]) by {
        let b = choose|b: int| 0 <= b < before.items_view().len() && before.items_view()[b] == without_id(before.items_view(), id)[a];
    }
}

/// A pushed notification gets a fresh id: no toast visible before carried it, the newest
/// visible toast carries it afterwards, and at most `MAX_TOASTS` toasts remain visible.
pub proof fn law_push_fresh_id(
    before: NotificationManager,
    kind: NotificationKind,
    title: Seq<char>,
    body: Option<Seq<char>>,
    after: NotificationManager,
)
    requires
        before.wf(),
        ({
            let appended = before.items_view().push(
                NotificationView { id: before.next_id(), kind, title, body },
            );
            after.items_view() == if appended.len() > MAX_TOASTS {
                appended.drop_first()
            } else {
                appended
            }
        }),
    ensures
        forall|a: int|
            0 <= a < before.items_view().len() ==> #[trigger] before.items_view()[a].id
                != before.next_id(),
        after.items_view().len() > 0,
        after.items_view().last().id == before.next_id(),
        after.items_view().len() <= MAX_TOASTS,
        after.items_view().len() == if before.items_view().len() + 1 > MAX_TOASTS {
            MAX_TOASTS as int
        } else {
            before.items_view().len() + 1int
        },
{
}

/// Every reachable toast stack shows at most `MAX_TOASTS` notifications, oldest first,
/// with strictly increasing (hence distinct) ids, each below the id the next push hands out.
pub proof fn law_toast_stack_bounds(m: NotificationManager)
    requires
        m.wf(),
    ensures
        m.items_view().len() <= MAX_TOASTS,
        ids_increasing_below(m.items_view(), m.next_id()),
{
}

proof fn lemma_unread_prepend(e: HistoryEntryView, s: Seq<HistoryEntryView>)
    ensures
        unread(seq![e] + s) == unread(s) + if e.read { 0nat } else { 1nat },
    decreases s.len(),
{
    if s.len() == 0 {
        assert(seq![e] + s =~= seq![e]);
        assert(seq![e].drop_last() =~= Seq::<HistoryEntryView>::empty());
        assert(unread(seq![e]) == unread(seq![e].drop_last()) + if e.read { 0nat } else { 1nat });
    } else {
        let t = seq![e] + s;
        assert(t.drop_last() =~= seq![e] + s.drop_last());
        assert(t.last() == s.last());
        lemma_unread_prepend(e, s.drop_last());
        assert(unread(t) == unread(t.drop_last()) + if t.last().read { 0nat } else { 1nat });
    }
}

proof fn lemma_unread_at_most_len(s: Seq<HistoryEntryView>)
    ensures
        unread(s) <= s.len(),
    decreases s.len(),
{
    if s.len() > 0 {
        lemma_unread_at_most_len(s.drop_last());
    }
}

/// Every reachable history holds at most `MAX_HISTORY` entries, newest first with strictly
/// decreasing ids below the next id, and its unread count never exceeds its length.
pub proof fn law_history_bounds(h: NotificationHistory)
    requires
        h.wf(),
    ensures
        h.entries_view().len() <= MAX_HISTORY,
        unread(h.entries_view()) <= h.entries_view().len(),
        forall|a: int, b: int|
            0 <= a < b < h.entries_view().len() ==> h.entries_view()[a].id > h.entries_view()[b].id,
        forall|a: int| 0 <= a < h.entries_view().len() ==> h.entries_view()[a].id < h.next_id(),
{
    lemma_unread_at_most_len(h.entries_view());
}

/// Pushing onto a history that is not full adds one entry and raises the unread count by one.
pub proof fn law_history_push_unread(
    before: NotificationHistory,
    kind: NotificationKind,
    title: Seq<char>,
    body: Option<Seq<char>>,
    after: NotificationHistory,
)
    requires
        before.wf(),
        before.entries_view().len() < MAX_HISTORY,
        after.entries_view() == seq![
            HistoryEntryView { id: before.next_id(), kind, title, body, read: false },
        ] + before.entries_view(),
    ensures
        after.entries_view().len() == before.entries_view().len() + 1,
        unread(after.entries_view()) == unread(before.entries_view()) + 1,
{
    lemma_unread_prepend(
        HistoryEntryView { id: before.next_id(), kind, title, body, read: false },
        before.entries_view(),
    );
}

} // verus!
