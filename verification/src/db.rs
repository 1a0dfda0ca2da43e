//! Desktop storage: the rows kept in the desktop and shared databases, the storage error
//! type, and the embedded migration runner's decisions (statement splitting, the applied
//! check and the tracking statements).
//!
//! The database connection itself lives with the caller: it executes the statements this
//! module produces and hands back what the database answered.
use vstd::prelude::*;
use crate::text::{concat, nonblank_trimmed, owned, split_on, split_trimmed, views};

verus! {

// ── Rows ──────────────────────────────────────────────────────────────────────

/// A keyboard shortcut override row.
#[derive(Debug, Clone)]
pub struct DbShortcut {
    pub action_id: String,
    pub key_combo: String,
}

/// One audit log entry.
#[derive(Debug, Clone)]
pub struct AuditEntry {
    pub actor: String,
    pub action: String,
    pub target: Option<String>,
    pub outcome: String,
    pub created_at: String,
}

// ── Errors ────────────────────────────────────────────────────────────────────

/// Storage error: the database layer failed, or the file system did.
#[derive(Debug)]
pub enum DbError {
    /// The database layer reported an error (its message).
    SeaOrm(String),
    /// An I/O error (its message).
    Io(String),
}

/// The message of a storage error.
pub open spec fn db_error_message(e: DbError) -> Seq<char> {
    match e {
        DbError::SeaOrm(m) => "SeaORM error: "@ + m@,
        DbError::Io(m) => "I/O error: "@ + m@,
    }
}

impl DbError {
    /// The human-readable message: `"SeaORM error: {msg}"` or `"I/O error: {msg}"`.
    pub fn message(&self) -> (m: String)
        ensures
            m@ == db_error_message(*self),
    {
        match self {
            DbError::SeaOrm(msg) => concat("SeaORM error: ", msg.as_str()),
            DbError::Io(msg) => concat("I/O error: ", msg.as_str()),
        }
    }
}

// ── Statement splitting ───────────────────────────────────────────────────────

/// The statements of an SQL script: split at `;`, trimmed, empty ones dropped.
pub open spec fn sql_statements(sql: Seq<char>) -> Seq<Seq<char>> {
    nonblank_trimmed(split_on(sql, ';'))
}

/// The statements of `sql`: the `;`-separated pieces, trimmed, without empty ones.
pub fn split_sql_statements(sql: &str) -> (out: Vec<String>)
    ensures
        views(out@) == sql_statements(sql@),
{
    split_trimmed(sql, ';')
}

// ── Migration runner ──────────────────────────────────────────────────────────

/// The statement that creates the migration tracking table when it is missing.
pub open spec fn spec_tracking_table_sql() -> Seq<char> {
    "CREATE TABLE IF NOT EXISTS _migrations (name TEXT PRIMARY KEY, applied_at INTEGER NOT NULL DEFAULT (strftime('%s','now')))"@
}

/// The statement that creates the migration tracking table when it is missing.
pub fn tracking_table_sql() -> (s: String)
    ensures
        s@ == spec_tracking_table_sql(),
{
    owned(
        "CREATE TABLE IF NOT EXISTS _migrations (name TEXT PRIMARY KEY, applied_at INTEGER NOT NULL DEFAULT (strftime('%s','now')))",
    )
}

/// The query that counts the tracking rows of the migration `name`.
pub open spec fn spec_applied_query(name: Seq<char>) -> Seq<char> {
    "SELECT COUNT(*) FROM _migrations WHERE name = '"@ + name + "'"@
}

/// The query that counts the tracking rows of the migration `name`.
pub fn applied_query(name: &str) -> (s: String)
    ensures
        s@ == spec_applied_query(name@),
{
    let a = concat("SELECT COUNT(*) FROM _migrations WHERE name = '", name);
    concat(a.as_str(), "'")
}

/// The statement that records the migration `name` as applied.
pub open spec fn spec_record_sql(name: Seq<char>) -> Seq<char> {
    "INSERT INTO _migrations (name) VALUES ('"@ + name + "')"@
}

/// The statement that records the migration `name` as applied.
pub fn record_sql(name: &str) -> (s: String)
    ensures
        s@ == spec_record_sql(name@),
{
    let a = concat("INSERT INTO _migrations (name) VALUES ('", name);
    concat(a.as_str(), "')")
}

/// Whether a migration counts as applied, given the answer to its count query: no row,
/// or a count that could not be read, means not applied; otherwise the count must be
/// positive.
pub fn applied_from_row(row: Option<Option<i64>>) -> (b: bool)
    ensures
        b == (match row {
            Some(Some(n)) => n > 0,
            _ => false,
        }),
{
    match row {
        Some(Some(n)) => n > 0,
        Some(None) => false,
        None => false,
    }
}

/// The statements that apply a pending migration: those of its script, in order, and
/// then the record of its name.
pub fn migration_statements(name: &str, sql: &str) -> (out: Vec<String>)
    ensures
        views(out@) == sql_statements(sql@).push(spec_record_sql(name@)),
{
    let mut out = split_sql_statements(sql);
    let ghost before = out@;
    out.push(record_sql(name));
    assert(views(out@) =~= views(before).push(spec_record_sql(name@)));
    out
}

/// What the migration runner asks the database to do next.
#[derive(Debug)]
pub enum MigrationAction {
    /// Execute these statements in order, then report back.
    Execute(Vec<String>),
    /// Run this count query (see [`applied_query`]) and report whether the migration
    /// counts as applied (see [`applied_from_row`]).
    AskApplied(String),
    /// All migrations are applied.
    Done,
}

/// The action as plain values.
pub enum MigrationActionView {
    Execute(Seq<Seq<char>>),
    AskApplied(Seq<char>),
    Done,
}

impl View for MigrationAction {
    type V = MigrationActionView;

    open spec fn view(&self) -> MigrationActionView {
        match self {
            MigrationAction::Execute(v) => MigrationActionView::Execute(views(v@)),
            MigrationAction::AskApplied(q) => MigrationActionView::AskApplied(q@),
            MigrationAction::Done => MigrationActionView::Done,
        }
    }
}

/// The action after the migrations before `i` are settled: ask about migration `i`, or
/// finish when there is none.
pub open spec fn ask_or_done(migrations: Seq<(String, String)>, i: int) -> MigrationActionView {
    if 0 <= i < migrations.len() {
        MigrationActionView::AskApplied(spec_applied_query(migrations[i].0@))
    } else {
        MigrationActionView::Done
    }
}

/// A run of a list of named migration scripts: first the tracking table is made sure
/// of, then each migration in order is looked up and, when it is not applied yet,
/// applied and recorded. `next` is the migration being settled.
#[derive(Debug)]
pub struct MigrationRun {
    pub migrations: Vec<(String, String)>,
    pub next: usize,
}

impl MigrationRun {
    /// Starts a run: the first action creates the tracking table when it is missing.
    pub fn start(migrations: Vec<(String, String)>) -> (r: (MigrationRun, MigrationAction))
        ensures
            r.0.migrations == migrations,
            r.0.next == 0,
            r.1@ == MigrationActionView::Execute(seq![spec_tracking_table_sql()]),
    {
        let mut first: Vec<String> = Vec::new();
        first.push(tracking_table_sql());
        assert(views(first@) =~= seq![spec_tracking_table_sql()]);
        (MigrationRun { migrations, next: 0 }, MigrationAction::Execute(first))
    }

    fn ask(&self) -> (a: MigrationAction)
        ensures
            a@ == ask_or_done(self.migrations@, self.next as int),
    {
        if self.next < self.migrations.len() {
            MigrationAction::AskApplied(applied_query(self.migrations[self.next].0.as_str()))
        } else {
            MigrationAction::Done
        }
    }

    /// The tracking table exists: ask about the first migration (or finish).
    pub fn table_ready(&self) -> (a: MigrationAction)
        ensures
            a@ == ask_or_done(self.migrations@, self.next as int),
    {
        self.ask()
    }

    /// The answer for the migration being settled: an applied one is passed over and the
    /// next one asked about; a pending one is applied (its statements, then its record).
    pub fn answered(&mut self, applied: bool) -> (a: MigrationAction)
        requires
            old(self).next < old(self).migrations@.len(),
        ensures
            final(self).migrations == old(self).migrations,
            applied ==> final(self).next == old(self).next + 1 && a@ == ask_or_done(
                old(self).migrations@,
                old(self).next + 1,
            ),
            !applied ==> final(self).next == old(self).next && a@ == MigrationActionView::Execute(
                sql_statements(old(self).migrations@[old(self).next as int].1@).push(
                    spec_record_sql(old(self).migrations@[old(self).next as int].0@),
                ),
            ),
    {
        if applied {
            if self.next < self.migrations.len() {
                self.next = self.next + 1;
            }
            self.ask()
        } else {
            let m = &self.migrations[self.next];
            MigrationAction::Execute(migration_statements(m.0.as_str(), m.1.as_str()))
        }
    }

    /// The pending migration was applied: ask about the next one (or finish).
    pub fn applied(&mut self) -> (a: MigrationAction)
        requires
            old(self).next < old(self).migrations@.len(),
        ensures
            final(self).migrations == old(self).migrations,
            final(self).next == old(self).next + 1,
            a@ == ask_or_done(old(self).migrations@, old(self).next + 1),
    {
        if self.next < self.migrations.len() {
            self.next = self.next + 1;
        }
        self.ask()
    }
}

/// Runs the desktop database migrations (`desktop_001_initial`).
pub struct DesktopMigrator;

/// Runs the shared database migrations (`shared_001_initial`).
pub struct SharedMigrator;

impl DesktopMigrator {
    /// Starts the run of the desktop migrations, given the script of the initial one.
    pub fn start(initial_sql: String) -> (r: (MigrationRun, MigrationAction))
        ensures
            r.0.migrations@.len() == 1,
            r.0.migrations@[0].0@ == "desktop_001_initial"@,
            r.0.migrations@[0].1@ == initial_sql@,
            r.0.next == 0,
            r.1@ == MigrationActionView::Execute(seq![spec_tracking_table_sql()]),
    {
        MigrationRun::start(vec![(owned("desktop_001_initial"), initial_sql)])
    }
}

impl SharedMigrator {
    /// Starts the run of the shared migrations, given the script of the initial one.
    pub fn start(initial_sql: String) -> (r: (MigrationRun, MigrationAction))
        ensures
            r.0.migrations@.len() == 1,
            r.0.migrations@[0].0@ == "shared_001_initial"@,
            r.0.migrations@[0].1@ == initial_sql@,
            r.0.next == 0,
            r.1@ == MigrationActionView::Execute(seq![spec_tracking_table_sql()]),
    {
        MigrationRun::start(vec![(owned("shared_001_initial"), initial_sql)])
    }
}

} // verus!
