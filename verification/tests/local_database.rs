use fishworker::clock::now_iso;
use fishworker::outbox::{
    clear_outbox_entries, get_pending_outbox, record_outbox_event, SELECT_PENDING_OUTBOX,
};
use fishworker::row::{CellValue, Row, Statement};
use fishworker::schema::local_table_definitions;

fn block_on<F: std::future::Future>(f: F) -> F::Output {
    tokio::runtime::Builder::new_current_thread().enable_all().build().unwrap().block_on(f)
}

fn to_value(c: &CellValue) -> libsql::Value {
    match c {
        CellValue::Null => libsql::Value::Null,
        CellValue::Integer(n) => libsql::Value::Integer(*n),
        CellValue::Text(s) => libsql::Value::Text(s.clone()),
        CellValue::Real { text, .. } => libsql::Value::Text(text.clone()),
        CellValue::Blob(b) => libsql::Value::Blob(b.clone()),
    }
}

fn from_value(v: libsql::Value) -> CellValue {
    match v {
        libsql::Value::Null => CellValue::Null,
        libsql::Value::Integer(n) => CellValue::Integer(n),
        libsql::Value::Text(s) => CellValue::Text(s),
        libsql::Value::Real(f) => CellValue::Real { truncated: f as i64, text: f.to_string() },
        libsql::Value::Blob(b) => CellValue::Blob(b),
    }
}

async fn setup_sqlite() -> (libsql::Database, libsql::Connection) {
    let db = libsql::Builder::new_local(":memory:").build().await.expect("create in-memory SQLite");
    let conn = db.connect().expect("connect");
    for ddl in local_table_definitions() {
        conn.execute(ddl, ()).await.expect("ensure local SQLite tables");
    }
    (db, conn)
}

async fn run(conn: &libsql::Connection, st: &Statement) {
    let params: Vec<libsql::Value> = st.params.cells.iter().map(to_value).collect();
    conn.execute(st.sql, params).await.expect("run statement");
}

async fn rows_of(conn: &libsql::Connection, sql: &str) -> Vec<Row> {
    let mut rows = conn.query(sql, ()).await.expect("query");
    let mut out = Vec::new();
    while let Some(row) = rows.next().await.expect("next row") {
        let cells = (0..row.column_count()).map(|i| from_value(row.get_value(i).unwrap())).collect();
        out.push(Row { cells });
    }
    out
}

async fn sqlite_count(conn: &libsql::Connection, table: &str) -> i64 {
    let mut rows = conn.query(&format!("SELECT COUNT(*) AS c FROM {}", table), ()).await.unwrap();
    let row = rows.next().await.unwrap().unwrap();
    row.get::<i64>(0).unwrap()
}

#[test]
fn foreign_key_cascade_deletes_child_records() {
    block_on(async {
        let (_db, sqlite) = setup_sqlite().await;
        sqlite.execute("PRAGMA foreign_keys=ON;", ()).await.unwrap();
        let now = now_iso();
        sqlite
            .execute(
                "INSERT INTO list_lists (id, name, created_at, updated_at) VALUES ('list-fk-1', 'Parent List', ?1, ?2)",
                vec![libsql::Value::Text(now.clone()), libsql::Value::Text(now.clone())],
            )
            .await
            .unwrap();
        sqlite
            .execute(
                "INSERT INTO list_notes (id, list_id, title, content, created_at, updated_at) VALUES ('note-fk-1', 'list-fk-1', 'Child Note', 'Body', ?1, ?2)",
                vec![libsql::Value::Text(now.clone()), libsql::Value::Text(now.clone())],
            )
            .await
            .unwrap();
        assert_eq!(sqlite_count(&sqlite, "list_notes").await, 1);
        sqlite.execute("DELETE FROM list_lists WHERE id = 'list-fk-1'", ()).await.unwrap();
        assert_eq!(sqlite_count(&sqlite, "list_notes").await, 0);
    });
}

#[test]
fn outbox_queue_records_and_flushes_offline_edits() {
    block_on(async {
        let (_db, sqlite) = setup_sqlite().await;
        run(&sqlite, &record_outbox_event("list_folders", "folder-outbox-1", "upsert", &now_iso())).await;
        run(&sqlite, &record_outbox_event("list_folders", "folder-outbox-2", "delete", &now_iso())).await;

        let pending = get_pending_outbox(&rows_of(&sqlite, SELECT_PENDING_OUTBOX).await);
        assert_eq!(pending.len(), 2, "Outbox queue should have 2 recorded events");
        assert_eq!(pending[0].record_id, "folder-outbox-1");
        assert_eq!(pending[1].operation, "delete");

        let ids: Vec<i64> = pending.iter().map(|p| p.id).collect();
        for st in clear_outbox_entries(&ids) {
            run(&sqlite, &st).await;
        }

        let after_clear = get_pending_outbox(&rows_of(&sqlite, SELECT_PENDING_OUTBOX).await);
        assert_eq!(after_clear.len(), 0, "Outbox queue should be empty after clearing");
    });
}

#[test]
fn clearing_only_some_edits_keeps_the_rest() {
    block_on(async {
        let (_db, sqlite) = setup_sqlite().await;
        for id in ["a", "b", "c"] {
            run(&sqlite, &record_outbox_event("habits", id, "upsert", "T")).await;
        }
        let pending = get_pending_outbox(&rows_of(&sqlite, SELECT_PENDING_OUTBOX).await);
        for st in clear_outbox_entries(&vec![pending[1].id]) {
            run(&sqlite, &st).await;
        }
        let left = get_pending_outbox(&rows_of(&sqlite, SELECT_PENDING_OUTBOX).await);
        let ids: Vec<&str> = left.iter().map(|e| e.record_id.as_str()).collect();
        assert_eq!(ids, vec!["a", "c"]);
        assert_eq!(left[0].table_name, "habits");
        assert_eq!(left[0].created_at, "T");
    });
}

#[test]
fn local_tables_are_created_once() {
    block_on(async {
        let (_db, sqlite) = setup_sqlite().await;
        for ddl in local_table_definitions() {
            sqlite.execute(ddl, ()).await.expect("a second run changes nothing");
        }
        assert_eq!(sqlite_count(&sqlite, "outbox_queue").await, 0);
        assert_eq!(local_table_definitions().len(), 26);
    });
}
