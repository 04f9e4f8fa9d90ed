use fishworker::habit::{
    checkin_from_returning, checkin_upsert_params, habit_create, habit_load_all, habit_toggle_checkin,
    habit_update, new_habit, HabitPayload,
};
use fishworker::pomodoro::{
    pomodoro_load_all, pomodoro_upsert_favorite, pomodoro_upsert_record, FavoriteFocusTask,
    LinkedTarget, PomodoroRecord,
};
use fishworker::row::{CellValue, Row};

fn text(s: &str) -> CellValue {
    CellValue::Text(s.to_string())
}

fn integer(n: i64) -> CellValue {
    CellValue::Integer(n)
}

fn habit_row(id: &str, checkin: Option<(&str, &str)>) -> Row {
    let mut cells = vec![
        text(id),
        text("Run"),
        text("daily"),
        CellValue::Null,
        text("2024-01-01"),
        text("30m"),
        text("health"),
        text("07:30"),
        integer(1),
        text("c"),
        text("u"),
    ];
    match checkin {
        Some((cid, date)) => {
            cells.extend(vec![text(cid), text(date), integer(1), text("cc"), text("cu")]);
        }
        None => {
            cells.extend(vec![CellValue::Null, CellValue::Null, CellValue::Null, CellValue::Null, CellValue::Null]);
        }
    }
    Row { cells }
}

#[test]
fn joined_rows_give_each_habit_once() {
    let rows = vec![
        habit_row("h1", Some(("c1", "2024-01-02"))),
        habit_row("h1", Some(("c2", "2024-01-03"))),
        habit_row("", Some(("c9", "2024-01-04"))),
        habit_row("h2", None),
    ];
    let d = habit_load_all(&rows);
    assert_eq!(d.habits.len(), 2);
    assert_eq!(d.habits[0].id, "h1");
    assert_eq!(d.habits[1].id, "h2");
    assert_eq!(d.habits[0].goal, None);
    assert_eq!(d.habits[0].group.as_deref(), Some("health"));
    assert_eq!(d.habits[0].reminder.as_deref(), Some("07:30"));
    assert_eq!(d.habits[0].check_in_time.as_deref(), Some("07:30"));
    assert!(d.habits[0].auto_popup_log);
    assert_eq!(d.check_ins.len(), 2);
    assert_eq!(d.check_ins[1].id, "c2");
    assert_eq!(d.check_ins[1].habit_id, "h1");
    assert_eq!(d.check_ins[1].date, "2024-01-03");
    assert!(d.check_ins[1].completed);
}

fn payload() -> HabitPayload {
    HabitPayload {
        name: Some("Read".to_string()),
        frequency: None,
        goal: Some("20 pages".to_string()),
        start_date: Some("  ".to_string()),
        duration: None,
        group: None,
        reminder: Some("21:00".to_string()),
        check_in_time: None,
        auto_popup_log: None,
    }
}

#[test]
fn new_habits_take_defaults() {
    let (h, params) = new_habit(&payload(), "id-1".to_string(), "NOW", "2024-06-01");
    assert_eq!(h.name, "Read");
    assert_eq!(h.start_date.as_deref(), Some("2024-06-01"));
    assert_eq!(h.reminder.as_deref(), Some("21:00"));
    assert_eq!(h.check_in_time.as_deref(), Some("21:00"));
    assert!(!h.auto_popup_log);
    assert_eq!(h.created_at, "NOW");
    assert_eq!(params.cells.len(), 11);
    assert_eq!(params.cells[4], text("2024-06-01"));
    assert_eq!(params.cells[8], integer(0));
    let mut p = payload();
    p.check_in_time = Some("06:00".to_string());
    p.start_date = Some("2024-02-02".to_string());
    p.name = None;
    p.auto_popup_log = Some(true);
    let (h, params) = new_habit(&p, "id-2".to_string(), "NOW", "2024-06-01");
    assert_eq!(h.reminder.as_deref(), Some("06:00"));
    assert_eq!(h.start_date.as_deref(), Some("2024-02-02"));
    assert_eq!(h.name, "");
    assert_eq!(params.cells[8], integer(1));
}

#[test]
fn created_habit_loads_back() {
    let (h, params) = new_habit(&payload(), "id-1".to_string(), "NOW", "2024-06-01");
    let mut cells = params.cells.clone();
    cells.extend(vec![CellValue::Null; 5]);
    let d = habit_load_all(&vec![Row { cells }]);
    assert_eq!(d.habits, vec![h]);
}

#[test]
fn habit_create_uses_a_uuid() {
    let (h, params) = habit_create(&payload());
    assert_eq!(h.id.len(), 36);
    assert_eq!(params.cells[0], CellValue::Text(h.id.clone()));
    assert_eq!(h.created_at, h.updated_at);
}

#[test]
fn habit_update_keeps_missing_name_null() {
    let r = habit_update("h1", &payload(), "NOW");
    assert_eq!(r.cells.len(), 10);
    assert_eq!(r.cells[0], text("Read"));
    assert_eq!(r.cells[1], CellValue::Null);
    assert_eq!(r.cells[6], text("21:00"));
    assert_eq!(r.cells[8], text("NOW"));
    assert_eq!(r.cells[9], text("h1"));
}

#[test]
fn checkins_from_upsert() {
    let p = checkin_upsert_params("c1", "h1", "2024-01-01", false, "NOW");
    assert_eq!(p.cells, vec![text("c1"), text("h1"), text("2024-01-01"), integer(0), text("NOW"), text("NOW")]);
    let q = habit_toggle_checkin("h1", "2024-01-01", true);
    assert_eq!(q.cells[1], text("h1"));
    assert_eq!(q.cells[3], integer(1));
    let returned = Row { cells: vec![text("c0"), integer(1), text("a"), text("b")] };
    let c = checkin_from_returning("h1".to_string(), "2024-01-01".to_string(), Some(&returned)).unwrap();
    assert_eq!(c.id, "c0");
    assert!(c.completed);
    assert_eq!(c.created_at, "a");
    let e = checkin_from_returning("h1".to_string(), "d".to_string(), None).unwrap_err();
    assert_eq!(e.kind(), "not_found");
    assert_eq!(e.message(), "habit_toggle_checkin: upsert returned no row");
}

fn target() -> LinkedTarget {
    LinkedTarget { target_type: "task".into(), id: "t1".into(), title: "Write".into() }
}

#[test]
fn focus_records_and_favorites_read_and_write() {
    let record_row = Row {
        cells: vec![
            text("r1"),
            text("focus"),
            text("work"),
            text("09:00"),
            text("09:25"),
            integer(25),
            text("2024-01-01"),
            text("Mon"),
            text("09:00-09:25"),
            text(" "),
            text("{\"type\":\"task\"}"),
            text("c"),
        ],
    };
    assert_eq!(PomodoroRecord::linked_target_text(&record_row).as_deref(), Some("{\"type\":\"task\"}"));
    let fav_row = Row {
        cells: vec![text("f1"), text("Deep work"), text(""), text("focus"), integer(0), integer(90), CellValue::Null, integer(1), text("c")],
    };
    assert_eq!(FavoriteFocusTask::linked_target_text(&fav_row), None);
    let d = pomodoro_load_all(vec![(record_row, Some(target()))], vec![(fav_row, None)]);
    let r = &d.records[0];
    assert_eq!(r.duration_minutes, 25);
    assert_eq!(r.task_id, None);
    assert_eq!(r.linked_target, Some(target()));
    let f = &d.favorite_tasks[0];
    assert_eq!(f.icon, "😊");
    assert_eq!(f.duration_minutes, 25);
    assert_eq!(f.accumulated_minutes, 90);
    assert!(f.is_archived);

    let p = pomodoro_upsert_record(r, &Some("{}".to_string()), "NOW");
    assert_eq!(p.cells.len(), 13);
    assert_eq!(p.cells[10], text("{}"));
    assert_eq!(p.cells[12], text("NOW"));
    let back = PomodoroRecord::from_row(&Row { cells: p.cells[..12].to_vec() }, Some(target()));
    assert_eq!(&back, r);
    let q = pomodoro_upsert_favorite(f, &None, "NOW");
    assert_eq!(q.cells[6], CellValue::Null);
    assert_eq!(q.cells[7], integer(1));
    let fback = FavoriteFocusTask::from_row(&Row { cells: q.cells[..9].to_vec() }, None);
    assert_eq!(&fback, f);
}
