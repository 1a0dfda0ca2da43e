use fs_desktop::builtin_apps::{ensure_registered, BuiltinIcons, InstalledPackage, RegistryChange};
use fs_desktop::db::{
    applied_from_row, applied_query, migration_statements, record_sql, split_sql_statements,
    tracking_table_sql, DbError, MigrationAction, MigrationRun,
};

#[test]
fn split_statements() {
    let s = split_sql_statements("CREATE TABLE a (x INT);\n  INSERT INTO a VALUES (1) ;;\n  ");
    assert_eq!(s, vec!["CREATE TABLE a (x INT)".to_string(), "INSERT INTO a VALUES (1)".to_string()]);
    assert!(split_sql_statements("").is_empty());
    assert_eq!(split_sql_statements("SELECT 1"), vec!["SELECT 1".to_string()]);
}

#[test]
fn migration_sql() {
    assert_eq!(applied_query("desktop_001_initial"), "SELECT COUNT(*) FROM _migrations WHERE name = 'desktop_001_initial'");
    assert_eq!(record_sql("x"), "INSERT INTO _migrations (name) VALUES ('x')");
    let st = migration_statements("m1", "CREATE TABLE t (a INT); ");
    assert_eq!(st, vec!["CREATE TABLE t (a INT)".to_string(), "INSERT INTO _migrations (name) VALUES ('m1')".to_string()]);
    assert!(tracking_table_sql().starts_with("CREATE TABLE IF NOT EXISTS _migrations"));
    assert!(applied_from_row(Some(Some(1))));
    assert!(!applied_from_row(Some(Some(0))));
    assert!(!applied_from_row(Some(None)));
    assert!(!applied_from_row(None));
}

#[test]
fn db_error_messages() {
    assert_eq!(DbError::SeaOrm("locked".into()).message(), "SeaORM error: locked");
    assert_eq!(DbError::Io("denied".into()).message(), "I/O error: denied");
}

fn icons() -> BuiltinIcons {
    BuiltinIcons {
        store: "S".into(),
        language: "L".into(),
        theme: "T".into(),
        icons: "I".into(),
        container: "C".into(),
        bots: "B".into(),
    }
}

fn pkg(id: &str, kind: &str) -> InstalledPackage {
    InstalledPackage {
        id: id.into(),
        name: id.into(),
        kind: kind.into(),
        version: "0".into(),
        icon: "".into(),
        file_path: None,
        installed_by: None,
    }
}

#[test]
fn registration_on_empty_registry_installs_all_builtins() {
    let changes = ensure_registered(&vec![], &vec![], &icons(), "1.0.0");
    assert_eq!(changes.len(), 6);
    match &changes[0] {
        RegistryChange::Install(p) => {
            assert_eq!(p.id, "store");
            assert_eq!(p.kind, "app");
            assert_eq!(p.icon, "S");
            assert_eq!(p.version, "1.0.0");
        }
        other => panic!("unexpected {other:?}"),
    }
    match &changes[5] {
        RegistryChange::Install(p) => assert_eq!(p.name, "Bots Manager"),
        other => panic!("unexpected {other:?}"),
    }
}

#[test]
fn registration_removes_legacy_and_stale_entries() {
    let installed = vec![
        pkg("manager-theme", "manager"),
        pkg("store", "app"),
        pkg("old-app", "app"),
        pkg("real-app", "app"),
        pkg("some-theme", "theme"),
    ];
    let has_binary = vec![false, false, false, true, false];
    let changes = ensure_registered(&installed, &has_binary, &icons(), "1.0.0");
    let removed: Vec<&str> = changes
        .iter()
        .filter_map(|c| match c {
            RegistryChange::Remove(id) => Some(id.as_str()),
            _ => None,
        })
        .collect();
    assert_eq!(removed, vec!["manager-theme", "old-app"]);
    let installed_ids: Vec<&str> = changes
        .iter()
        .filter_map(|c| match c {
            RegistryChange::Install(p) => Some(p.id.as_str()),
            _ => None,
        })
        .collect();
    assert_eq!(installed_ids, vec!["language-manager", "theme-manager", "icons-manager", "container", "bot-manager"]);
}

#[test]
fn registration_is_idempotent_once_builtins_exist() {
    let installed: Vec<InstalledPackage> = ["store", "language-manager", "theme-manager", "icons-manager", "container", "bot-manager"]
        .iter()
        .map(|id| pkg(id, if *id == "store" { "app" } else { "manager" }))
        .collect();
    let changes = ensure_registered(&installed, &vec![false; 6], &icons(), "2.0.0");
    assert!(changes.is_empty());
}

#[test]
fn migration_run_applies_only_pending_scripts() {
    let migrations = vec![
        ("desktop_001".to_string(), "CREATE TABLE a (x INT); ".to_string()),
        ("desktop_002".to_string(), "CREATE TABLE b (y INT);CREATE INDEX i ON b (y)".to_string()),
    ];
    let (mut run, first) = MigrationRun::start(migrations);
    match first {
        MigrationAction::Execute(v) => {
            assert_eq!(v.len(), 1);
            assert!(v[0].starts_with("CREATE TABLE IF NOT EXISTS _migrations"));
        }
        other => panic!("unexpected {other:?}"),
    }
    match run.table_ready() {
        MigrationAction::AskApplied(q) => {
            assert_eq!(q, "SELECT COUNT(*) FROM _migrations WHERE name = 'desktop_001'")
        }
        other => panic!("unexpected {other:?}"),
    }
    match run.answered(true) {
        MigrationAction::AskApplied(q) => assert!(q.ends_with("'desktop_002'")),
        other => panic!("unexpected {other:?}"),
    }
    match run.answered(false) {
        MigrationAction::Execute(v) => assert_eq!(
            v,
            vec![
                "CREATE TABLE b (y INT)".to_string(),
                "CREATE INDEX i ON b (y)".to_string(),
                "INSERT INTO _migrations (name) VALUES ('desktop_002')".to_string(),
            ]
        ),
        other => panic!("unexpected {other:?}"),
    }
    assert!(matches!(run.applied(), MigrationAction::Done));
    assert_eq!(run.next, 2);
}

#[test]
fn migrators_name_their_initial_script() {
    let (run, _) = fs_desktop::db::DesktopMigrator::start("CREATE TABLE t (x INT)".to_string());
    assert_eq!(run.migrations[0].0, "desktop_001_initial");
    let (run, _) = fs_desktop::db::SharedMigrator::start(String::new());
    assert_eq!(run.migrations[0].0, "shared_001_initial");
    let mut run = run;
    match run.table_ready() {
        MigrationAction::AskApplied(q) => assert!(q.ends_with("'shared_001_initial'")),
        other => panic!("unexpected {other:?}"),
    }
    match run.answered(false) {
        MigrationAction::Execute(v) => {
            assert_eq!(v, vec!["INSERT INTO _migrations (name) VALUES ('shared_001_initial')".to_string()])
        }
        other => panic!("unexpected {other:?}"),
    }
}

fn apply(reg: &mut Vec<(InstalledPackage, bool)>, changes: Vec<RegistryChange>) {
    for c in changes {
        match c {
            RegistryChange::Remove(id) => reg.retain(|(p, _)| p.id != id),
            RegistryChange::Install(p) => reg.push((p, false)),
        }
    }
}

fn plan(reg: &[(InstalledPackage, bool)]) -> Vec<RegistryChange> {
    let pkgs: Vec<InstalledPackage> = reg.iter().map(|(p, _)| p.clone()).collect();
    let flags: Vec<bool> = reg.iter().map(|(_, b)| *b).collect();
    ensure_registered(&pkgs, &flags, &icons(), "1.0.0")
}

#[test]
fn registration_outcome_and_second_run() {
    let mut store = pkg("store", "app");
    store.version = "0.9".into();
    let mut reg = vec![
        (pkg("manager-bots", "manager"), true),
        (store, false),
        (pkg("gone-app", "app"), false),
        (pkg("kept-app", "app"), true),
    ];
    let changes = plan(&reg);
    apply(&mut reg, changes);
    let ids: Vec<&str> = reg.iter().map(|(p, _)| p.id.as_str()).collect();
    assert!(!ids.contains(&"manager-bots"));
    assert!(!ids.contains(&"gone-app"));
    assert!(ids.contains(&"kept-app"));
    for b in ["store", "language-manager", "theme-manager", "icons-manager", "container", "bot-manager"] {
        assert!(ids.contains(&b));
    }
    let kept_store = reg.iter().find(|(p, _)| p.id == "store").unwrap();
    assert_eq!(kept_store.0.version, "0.9");
    assert!(plan(&reg).is_empty());
}
