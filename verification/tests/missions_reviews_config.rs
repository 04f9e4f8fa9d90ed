use fishworker::config::{
    after_replica_attempt, db_get_preference, db_set_preference, db_sync_now, pick_data_dir,
    plan_connection, read_turso_config, set_app_config_dir, ConnectionPlan, ReplicaAttempt,
    TursoConfigJson,
};
use fishworker::daily_review::{
    daily_review_delete, daily_review_load_all, daily_review_save, parse_ms_text, review_save_params,
    DailyReviewRow,
};
use fishworker::mission::{
    mission_create_goal, mission_create_role, mission_load_all, mission_save_statement,
    mission_update_goal, mission_update_role, new_goal, new_role, GoalUpdate,
};
use fishworker::row::{CellValue, Row};

fn text(s: &str) -> CellValue {
    CellValue::Text(s.to_string())
}

fn integer(n: i64) -> CellValue {
    CellValue::Integer(n)
}

#[test]
fn mission_page_loads() {
    let st = Row { cells: vec![text("default"), text("Be kind"), integer(10)] };
    let roles = vec![Row { cells: vec![text("r1"), text("Parent"), CellValue::Null, integer(2), integer(3), CellValue::Null] }];
    let goals = vec![Row {
        cells: vec![
            text("g1"),
            text("r1"),
            text("Read"),
            text("not_started"),
            text("long"),
            CellValue::Null,
            text("2024-12-31"),
            integer(4294967297),
            integer(5),
            integer(6),
        ],
    }];
    let d = mission_load_all(Some(&st), &roles, &goals).unwrap();
    let s = d.statement.unwrap();
    assert_eq!((s.id.as_str(), s.content.as_str(), s.updated_at), ("default", "Be kind", 10));
    assert_eq!(d.roles[0].icon, "");
    assert_eq!(d.roles[0].sort_order, 2);
    assert_eq!(d.roles[0].updated_at, 0);
    assert_eq!(d.goals[0].start_date, None);
    assert_eq!(d.goals[0].end_date.as_deref(), Some("2024-12-31"));
    assert_eq!(d.goals[0].sort_order, 1);
    assert!(mission_load_all(None, &Vec::new(), &Vec::new()).unwrap().statement.is_none());
}

#[test]
fn a_null_id_is_the_drivers_error() {
    let roles = vec![Row { cells: vec![CellValue::Null, text("x"), text("i"), integer(0), integer(0), integer(0)] }];
    let e = mission_load_all(None, &roles, &Vec::new()).unwrap_err();
    assert_eq!(e.kind(), "db");
    assert_eq!(e.message(), "Null value");
}

#[test]
fn mission_writes() {
    let (s, p) = mission_save_statement("Grow".to_string(), 77);
    assert_eq!(s.id, "default");
    assert_eq!(p.cells, vec![text("Grow"), integer(77)]);
    let (r, p) = new_role("r1".into(), "Parent".into(), "🎯".into(), 3, 9);
    assert_eq!(r.created_at, 9);
    assert_eq!(p.cells, vec![text("r1"), text("Parent"), text("🎯"), integer(3), integer(9), integer(9)]);
    let back = mission_load_all(None, &vec![p], &Vec::new()).unwrap();
    assert_eq!(back.roles, vec![r]);
    let (r2, _) = mission_create_role("Coach".into(), "⚽".into(), 1);
    assert_eq!(r2.id.len(), 36);
    let (g, p) = new_goal("g1".into(), "r1".into(), "Read".into(), 0, 8);
    assert_eq!(g.status, "not_started");
    assert_eq!(g.time_scope, "long");
    assert_eq!(p.cells, vec![text("g1"), text("r1"), text("Read"), integer(0), integer(8), integer(8)]);
    let (g2, _) = mission_create_goal("r1".into(), "Run".into(), 2);
    assert_eq!(g2.id.len(), 36);
    assert_eq!(g2.start_date, None);
    assert_eq!(mission_update_role("r1", "P", "I", 5).cells, vec![text("P"), text("I"), integer(5), text("r1")]);
    let u = GoalUpdate { title: None, status: Some("done".into()), time_scope: None, start_date: Some("".into()), end_date: None };
    assert_eq!(
        mission_update_goal("g1", &u, 4).cells,
        vec![CellValue::Null, text("done"), CellValue::Null, text(""), CellValue::Null, integer(4), text("g1")]
    );
}

#[test]
fn review_timestamps_parse() {
    assert_eq!(parse_ms_text("1700000000000"), Some(1700000000000));
    assert_eq!(parse_ms_text("2024-01-02T00:00:00Z"), Some(1704153600000));
    assert_eq!(parse_ms_text("2024-01-02 00:00:00.500"), Some(1704153600500));
    assert_eq!(parse_ms_text("2024-01-02 00:00:01"), Some(1704153601000));
    assert_eq!(parse_ms_text("yesterday"), None);
}

#[test]
fn reviews_load() {
    let rows = vec![Row {
        cells: vec![text("d1"), text("2024-01-02"), text("<p>ok</p>"), integer(4), text("2024-01-02 00:00:00.000"), CellValue::Null],
    }];
    let v = daily_review_load_all(&rows);
    assert_eq!(v[0].rating, Some(4));
    assert_eq!(v[0].created_at, Some(1704153600000));
    assert_eq!(v[0].updated_at, None);
    assert_eq!(v[0].content, "<p>ok</p>");
}

#[test]
fn reviews_save_and_delete() {
    let r = DailyReviewRow {
        id: "d1".into(),
        date: "2024-01-02".into(),
        content: "c".into(),
        rating: None,
        created_at: Some(1704153600000),
        updated_at: None,
    };
    let p = review_save_params(&r, 0, "FALLBACK", "NOW");
    assert_eq!(
        p.cells,
        vec![text("d1"), text("2024-01-02"), text("c"), CellValue::Null, text("2024-01-02 00:00:00.000"), text("NOW")]
    );
    let q = review_save_params(&DailyReviewRow { created_at: None, ..r.clone() }, 1000, "FALLBACK", "NOW");
    assert_eq!(q.cells[4], text("1970-01-01 00:00:01.000"));
    let w = review_save_params(&DailyReviewRow { created_at: Some(i64::MAX), ..r.clone() }, 0, "FALLBACK", "NOW");
    assert_eq!(w.cells[4], text("FALLBACK"));
    let saved = daily_review_save(&r);
    assert_eq!(saved.cells[4], text("2024-01-02 00:00:00.000"));
    assert_eq!(daily_review_delete("d1", "NOW").cells, vec![text("NOW"), text("NOW"), text("d1")]);
}

fn cfg(url: Option<&str>, token: Option<&str>, ms: Option<u64>) -> TursoConfigJson {
    TursoConfigJson {
        url: url.map(|s| s.to_string()),
        auth_token: token.map(|s| s.to_string()),
        sync_interval_ms: ms,
        sync_on_start: None,
    }
}

#[test]
fn connection_plans() {
    assert_eq!(plan_connection(&cfg(None, Some("t"), None)), ConnectionPlan::Local);
    assert_eq!(plan_connection(&cfg(Some("  "), Some("t"), None)), ConnectionPlan::Local);
    assert_eq!(plan_connection(&cfg(Some("db"), Some(" "), None)), ConnectionPlan::Local);
    assert_eq!(
        plan_connection(&cfg(Some(" libsql://db.turso.io "), Some(" tok "), None)),
        ConnectionPlan::Replica { url: "https://db.turso.io".into(), token: "tok".into(), sync_interval_secs: 60 }
    );
    assert_eq!(
        plan_connection(&cfg(Some("turso://x"), Some("t"), Some(5000))),
        ConnectionPlan::Replica { url: "https://x".into(), token: "t".into(), sync_interval_secs: 10 }
    );
    assert_eq!(
        plan_connection(&cfg(Some("x.io"), Some("t"), Some(125_999))),
        ConnectionPlan::Replica { url: "https://x.io".into(), token: "t".into(), sync_interval_secs: 125 }
    );
    assert_eq!(
        plan_connection(&cfg(Some("http://local:8080"), Some("t"), None)),
        ConnectionPlan::Replica { url: "http://local:8080".into(), token: "t".into(), sync_interval_secs: 60 }
    );
}

#[test]
fn replica_attempts() {
    let s = after_replica_attempt(ReplicaAttempt::Opened);
    assert!(s.is_remote && s.init_error.is_none());
    let s = after_replica_attempt(ReplicaAttempt::Failed("bad token".into()));
    assert!(!s.is_remote);
    assert_eq!(s.init_error.as_deref(), Some("ReplicaInitError: bad token"));
    let s = after_replica_attempt(ReplicaAttempt::TimedOut);
    assert_eq!(s.init_error.as_deref(), Some("Connection to Turso Cloud timed out during startup"));
}

#[test]
fn settings_file_selection() {
    let cands = vec![None, Some(cfg(Some(""), Some("a"), None)), Some(cfg(Some("u2"), None, None)), Some(cfg(Some("u3"), None, None))];
    let chosen = read_turso_config(&cands, &Some(cfg(Some("builtin"), None, None)));
    assert_eq!(chosen.config, cfg(Some("u2"), None, None));
    assert!(!chosen.from_built_in);
    let fallback = read_turso_config(&vec![None], &Some(cfg(Some("builtin"), None, None)));
    assert_eq!(fallback.config, cfg(Some("builtin"), None, None));
    assert!(fallback.from_built_in);
    let nothing = read_turso_config(&vec![], &None);
    assert_eq!(nothing.config, TursoConfigJson::empty());
    assert!(!nothing.from_built_in);
}

#[test]
fn data_dir_and_first_set_wins() {
    assert_eq!(pick_data_dir(&Some("a".into()), &Some("b".into())), "a");
    assert_eq!(pick_data_dir(&None, &Some("b".into())), "b");
    assert_eq!(pick_data_dir(&None, &None), ".");
    let mut slot = None;
    set_app_config_dir(&mut slot, "first".into());
    set_app_config_dir(&mut slot, "second".into());
    assert_eq!(slot.as_deref(), Some("first"));
}

#[test]
fn sync_reports() {
    assert_eq!(db_sync_now(Ok(()), &None), "sync_ok");
    assert_eq!(db_sync_now(Err("network down".into()), &None), "sync_error: network down");
    assert_eq!(
        db_sync_now(Err("database opened in File mode".into()), &Some("ReplicaInitError: x".into())),
        "sync_error: 无法建立云端副本 (ReplicaInitError: x)"
    );
    assert_eq!(
        db_sync_now(Err("opened in File mode".into()), &None),
        "sync_error: 无法建立云端副本 (未知初始化错误)"
    );
}

#[test]
fn preferences() {
    assert_eq!(db_get_preference(None), None);
    assert_eq!(db_get_preference(Some(&Row { cells: vec![text("dark")] })), Some("dark".to_string()));
    assert_eq!(db_get_preference(Some(&Row { cells: vec![CellValue::Null] })), Some(String::new()));
    assert_eq!(db_set_preference("theme", "dark").cells, vec![text("theme"), text("dark")]);
}
