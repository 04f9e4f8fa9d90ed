use fishworker::file_dialog::{candidate_file_name, sanitize_title, MarkdownFile};
use fishworker::list_migration::{
    list_migrate_from_local, MigrationData, MigrationFolder, MigrationList, MigrationNote,
    MigrationNoteGroup, MigrationTemplate,
};
use fishworker::row::{CellValue, Row};
use fishworker::schema::{
    common_migrations, ensure_local_tables, ms_migration_statement, pending_migrations,
    SQL_JOURNAL_WAL,
};
use fishworker::watermark::{get_watermark, set_watermark, watermark_select_sql};

fn text(s: &str) -> CellValue {
    CellValue::Text(s.to_string())
}

fn integer(n: i64) -> CellValue {
    CellValue::Integer(n)
}

#[test]
fn setup_script_order() {
    let steps = ensure_local_tables();
    assert_eq!(steps.len(), 10 + 11 + 10);
    assert_eq!(steps[0].sql, SQL_JOURNAL_WAL);
    assert!(steps[0].is_query);
    assert!(steps[1..].iter().all(|s| !s.is_query));
    assert_eq!(steps[1].sql, "PRAGMA busy_timeout=5000");
    assert_eq!(steps[10].failure_label.as_deref(), Some("daily_reviews.created_at"));
    assert_eq!(steps[20].failure_label.as_deref(), Some("list_notes.updated_at"));
    assert_eq!(steps[21].sql, "UPDATE mission_roles SET icon = '🎯' WHERE icon IS NULL OR icon = ''");
    assert_eq!(steps[30].sql, "UPDATE daily_reviews SET rating = 0 WHERE rating IS NULL");
    assert!(steps[21].failure_label.is_none());
}

#[test]
fn timestamp_switch_statement() {
    assert_eq!(
        ms_migration_statement("t", "c"),
        "UPDATE t SET c = CASE WHEN c LIKE '____-__-__%' THEN CAST(strftime('%s', c) AS INTEGER) * 1000 + CAST(COALESCE(NULLIF(substr(c, 21, 3), ''), '0') AS INTEGER) WHEN c IS NOT NULL AND c != '' THEN CAST(c AS INTEGER) ELSE NULL END WHERE typeof(c) = 'text'"
    );
    let steps = ensure_local_tables();
    assert_eq!(steps[12].sql, ms_migration_statement("mission_roles", "created_at"));
}

#[test]
fn migrations_run_once() {
    let all = common_migrations();
    assert_eq!(all.len(), 26);
    assert!(all.iter().enumerate().all(|(i, m)| m.version == i as i32 + 1));
    assert_eq!(all[0].name, "habits_frequency");
    let pending = pending_migrations(&vec![1, 2, 3, 4, 5, 6, 7, 8, 10, 11]);
    assert_eq!(pending.len(), 16);
    assert_eq!(pending[0].0, 9);
    assert_eq!(pending[0].2, "ALTER TABLE pomodoro_favorites ADD COLUMN updated_at TEXT NOT NULL DEFAULT ''");
    let v19 = pending.iter().find(|p| p.0 == 19).unwrap();
    assert_eq!(v19.2, "ALTER TABLE pomodoro_records ADD COLUMN updated_at TEXT NOT NULL DEFAULT ''");
    let v22 = pending.iter().find(|p| p.0 == 22).unwrap();
    assert_eq!(v22.1, "cleanup_orphan_notes");
    let mut applied: Vec<i32> = vec![1, 2, 3, 4, 5, 6, 7, 8, 10, 11];
    applied.extend(pending.iter().map(|p| p.0));
    assert!(pending_migrations(&applied).is_empty());
    assert_eq!(pending_migrations(&Vec::new()).len(), 26);
}

fn data() -> MigrationData {
    MigrationData {
        folders: vec![MigrationFolder { id: "f1".into(), name: "Work".into(), is_pinned: None, sort_order: Some(2) }],
        lists: vec![MigrationList {
            id: "l1".into(),
            name: "L".into(),
            icon: None,
            color: None,
            view_type: Some("kanban".into()),
            folder_id: Some("f1".into()),
            is_pinned: Some(true),
            sort_order: None,
            item_count: Some(3),
        }],
        note_groups: vec![MigrationNoteGroup { id: "g1".into(), list_id: "l1".into(), name: "G".into(), sort_order: None }],
        notes: vec![MigrationNote {
            id: "n1".into(),
            list_id: "l1".into(),
            group_id: None,
            title: None,
            content: Some("body".into()),
            is_pinned: None,
            sort_order: Some(1),
            created_at: Some(1704153600000),
            updated_at: None,
        }],
        templates: vec![MigrationTemplate { id: "t1".into(), name: "T".into(), content: None }],
    }
}

#[test]
fn import_rows() {
    let r = list_migrate_from_local(&data(), "NOW", 777);
    assert_eq!(r.folders[0].cells, vec![text("f1"), text("Work"), integer(0), integer(2), text("NOW"), text("NOW")]);
    assert_eq!(
        r.lists[0].cells,
        vec![text("l1"), text("L"), text(""), text("#000000"), text("kanban"), text("f1"), integer(1), integer(0), text("NOW"), text("NOW")]
    );
    assert_eq!(r.note_groups[0].cells, vec![text("g1"), text("l1"), text("G"), integer(0), text("NOW"), text("NOW")]);
    assert_eq!(
        r.notes[0].cells,
        vec![
            text("n1"),
            text("l1"),
            CellValue::Null,
            text(""),
            text("body"),
            integer(0),
            integer(1),
            integer(1704153600000),
            integer(0),
        ]
    );
    assert_eq!(r.templates[0].cells, vec![text("t1"), text("T"), text(""), text("NOW"), text("NOW")]);
    let again = list_migrate_from_local(&data(), "LATER", 888);
    assert_eq!(again.folders[0].cells[0], r.folders[0].cells[0]);
    assert_eq!(again.notes[0].cells[0], r.notes[0].cells[0]);
}

#[test]
fn imported_note_times_out_of_range_take_the_import_time() {
    let mut d = data();
    d.notes[0].created_at = Some(i64::MAX);
    d.notes[0].updated_at = Some(-8334601228800001);
    let r = list_migrate_from_local(&d, "NOW", 777);
    assert_eq!(r.notes[0].cells[7], integer(777));
    assert_eq!(r.notes[0].cells[8], integer(777));
    d.notes[0].updated_at = Some(-8334601228800000);
    let r = list_migrate_from_local(&d, "NOW", 777);
    assert_eq!(r.notes[0].cells[8], integer(-8334601228800000));
}

#[test]
fn titles_become_safe_file_names() {
    assert_eq!(sanitize_title("a/b:c*d"), "a_b_c_d");
    assert_eq!(sanitize_title("My note-1_x"), "My note-1_x");
    assert_eq!(sanitize_title("笔记 №1"), "笔记 _1");
    assert_eq!(sanitize_title("Ünïcode ok"), "Ünïcode ok");
    assert_eq!(candidate_file_name("note", 0), "note.md");
    assert_eq!(candidate_file_name("note", 1), "note_1.md");
    assert_eq!(candidate_file_name("note", 12), "note_12.md");
    let f = MarkdownFile { title: "t".into(), content: "c".into() };
    assert_eq!(f.clone(), f);
}

#[test]
fn watermarks() {
    assert_eq!(watermark_select_sql(true), "SELECT last_pulled_at FROM sync_state WHERE table_name = ?1");
    assert_eq!(watermark_select_sql(false), "SELECT last_pushed_at FROM sync_state WHERE table_name = ?1");
    let (sql, p) = set_watermark("habits", "2024-01-01 00:00:00.000", false);
    assert_eq!(
        sql,
        "INSERT INTO sync_state (table_name, last_pushed_at) VALUES (?1, ?2) ON CONFLICT(table_name) DO UPDATE SET last_pushed_at = excluded.last_pushed_at"
    );
    assert_eq!(p.cells, vec![text("habits"), text("2024-01-01 00:00:00.000")]);
    assert_eq!(get_watermark(None), None);
    assert_eq!(get_watermark(Some(&Row { cells: vec![CellValue::Null] })), None);
    assert_eq!(get_watermark(Some(&Row { cells: vec![text("2024-01-02 00:00:00.250")] })), Some(1704153600250));
    assert_eq!(get_watermark(Some(&Row { cells: vec![text("2024-01-02 00:00:01")] })), Some(1704153601000));
    assert_eq!(get_watermark(Some(&Row { cells: vec![text("bad")] })), None);
}
