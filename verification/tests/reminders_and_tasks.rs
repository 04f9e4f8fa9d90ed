use chrono::{Datelike, NaiveDate};
use fishworker::reminder::{
    build_deadline_body, evaluate_task_reminder, fired_cutoff, get_task_target_date,
    is_reminder_due, make_reminder_key, parse_hour_minute, parse_reminder, target_day_of,
    RawReminder, ReminderOutcome, ReminderTask, TaskReminderConfig,
};
use fishworker::row::{CellValue, Row};
use fishworker::time_management::{fired_pattern, tm_delete_task, tm_load_all, tm_upsert_task, Task};

fn day(y: i32, m: u32, d: u32) -> i32 {
    NaiveDate::from_ymd_opt(y, m, d).unwrap().num_days_from_ce()
}

fn text(s: &str) -> CellValue {
    CellValue::Text(s.to_string())
}

fn integer(n: i64) -> CellValue {
    CellValue::Integer(n)
}

#[test]
fn reminders_parse_from_their_object() {
    assert!(parse_reminder("  ", Some(RawReminder { offset_days: Some(1), time: Some("09:00".into()), repeat: None })).is_none());
    let r = parse_reminder("{...}", Some(RawReminder { offset_days: Some(2), time: Some("09:00".into()), repeat: None })).unwrap();
    assert_eq!(r, TaskReminderConfig { offset_days: 2, time: "09:00".into(), repeat: false });
    let r = parse_reminder("{...}", Some(RawReminder { offset_days: Some(0), time: Some("18:30".into()), repeat: Some(true) })).unwrap();
    assert!(r.repeat);
    assert!(parse_reminder("{...}", Some(RawReminder { offset_days: None, time: Some("09:00".into()), repeat: None })).is_none());
    assert!(parse_reminder("not json", None).is_none());
}

#[test]
fn target_day_prefers_deadline_then_schedule() {
    let today = day(2024, 3, 1);
    assert_eq!(target_day_of(Some(5), Some("2024-01-01"), Some(7), today), 5);
    assert_eq!(target_day_of(None, Some("2024-01-01"), Some(7), today), day(2024, 1, 1));
    assert_eq!(target_day_of(None, Some("garbage"), Some(7), today), 7);
    assert_eq!(target_day_of(None, None, None, today), today);
    assert_eq!(get_task_target_date(None, Some("2024-02-29"), 0, today), day(2024, 2, 29));
}

#[test]
fn hour_minute_fields() {
    assert_eq!(parse_hour_minute("09:30"), Some((9, 30)));
    assert_eq!(parse_hour_minute("x:5"), Some((0, 5)));
    assert_eq!(parse_hour_minute("0930"), None);
    assert_eq!(parse_hour_minute("1:2:3"), None);
}

#[test]
fn due_window_and_time_of_day() {
    let c = TaskReminderConfig { offset_days: 2, time: "09:00".into(), repeat: false };
    let target = day(2024, 1, 10);
    let remind = day(2024, 1, 8);
    assert!(is_reminder_due(&c, target, remind, remind, (9, 0)));
    assert!(!is_reminder_due(&c, target, remind, remind, (8, 59)));
    assert!(!is_reminder_due(&c, target, remind, day(2024, 1, 9), (10, 0)));
    let r = TaskReminderConfig { repeat: true, ..c.clone() };
    assert!(is_reminder_due(&r, target, remind, day(2024, 1, 9), (10, 0)));
    assert!(!is_reminder_due(&r, target, remind, day(2024, 1, 11), (10, 0)));
    assert!(!is_reminder_due(&r, target, remind, day(2024, 1, 7), (10, 0)));
}

#[test]
fn keys_and_bodies() {
    assert_eq!(make_reminder_key("t1", "2024-01-10", 1), "t1@2024-01-10:1");
    assert_eq!(make_reminder_key("t1", "2024-01-10", -3), "t1@2024-01-10:-3");
    assert_eq!(build_deadline_body("报告", 1, 11, None, 1), "「报告」明天到期（1月11日）");
    assert_eq!(build_deadline_body("报告", 1, 10, Some("23:59"), 0), "「报告」今天到期（1月10日）");
    assert_eq!(build_deadline_body("报告", 12, 3, Some("14:30"), 5), "「报告」5 天后到期（12月3日 14:30）");
    assert_eq!(build_deadline_body("报告", 2, 1, Some("00:00"), -1), "「报告」今天到期（2月1日）");
}

fn task() -> ReminderTask {
    ReminderTask {
        id: "t1".into(),
        title: "Report".into(),
        deadline: None,
        scheduled_date: Some("2024-01-11".into()),
        created_at: 0,
        reminder: "{...}".into(),
    }
}

#[test]
fn one_task_checked() {
    let c = TaskReminderConfig { offset_days: 1, time: "09:00".into(), repeat: false };
    let target = day(2024, 1, 11);
    let today = day(2024, 1, 10);
    match evaluate_task_reminder(&task(), &c, target, today, (9, 15)) {
        ReminderOutcome::Fire { key, body } => {
            assert_eq!(key, "t1@2024-01-10:1");
            assert_eq!(body, "「Report」明天到期（1月11日）");
        }
        other => panic!("expected a notification, got {:?}", other),
    }
    assert_eq!(evaluate_task_reminder(&task(), &c, target, today, (8, 0)), ReminderOutcome::Skip);
    assert_eq!(evaluate_task_reminder(&task(), &c, target, target, (10, 0)), ReminderOutcome::Skip);
}

#[test]
fn reminder_rows_read_typed() {
    let row = Row {
        cells: vec![text("t1"), CellValue::Null, integer(1700000000000), CellValue::Null, integer(5), text("{}")],
    };
    let t = ReminderTask::from_row(&row);
    assert_eq!(t.id, "t1");
    assert_eq!(t.title, "");
    assert_eq!(t.deadline, Some(1700000000000));
    assert_eq!(t.scheduled_date, None);
    assert_eq!(t.created_at, 5);
    assert_eq!(t.reminder, "{}");
}

#[test]
fn fired_records_are_kept_two_weeks() {
    assert_eq!(fired_cutoff(1_300_000_000_000), Some(1_300_000_000_000 - 1_209_600_000));
    assert_eq!(fired_cutoff(i64::MIN), None);
}

fn task_row() -> Row {
    Row {
        cells: vec![
            text("t1"),
            text("Report"),
            text("r1"),
            text("q2"),
            text("2024-01-11"),
            CellValue::Null,
            integer(1),
            integer(100),
            integer(200),
            text(""),
            CellValue::Null,
            text("{\"offsetDays\":1,\"time\":\"09:00\"}"),
        ],
    }
}

#[test]
fn tasks_load_and_save() {
    let roles = vec![Row { cells: vec![text("r1"), text("Work"), text("2024-01-02T00:00:00Z")] }];
    let d = tm_load_all(&roles, &vec![task_row()]).unwrap();
    assert_eq!(d.roles[0].created_at, 1704153600000);
    assert_eq!(d.roles[0].color, None);
    let t: &Task = &d.tasks[0];
    assert_eq!(t.role_id.as_deref(), Some("r1"));
    assert!(t.completed);
    assert_eq!(t.completed_at, Some(200));
    assert_eq!(t.description, None);
    let w = tm_upsert_task(t, "NOW");
    assert_eq!(w.params.cells.len(), 13);
    assert_eq!(w.params.cells[12], text("NOW"));
    assert_eq!(w.clear_fired.as_deref(), Some("t1@%"));
    let mut open = t.clone();
    open.completed = false;
    assert_eq!(tm_upsert_task(&open, "NOW").clear_fired, None);
    let back = tm_load_all(&Vec::new(), &vec![Row { cells: w.params.cells[..12].to_vec() }]).unwrap();
    assert_eq!(&back.tasks[0], t);
    let (p, pattern) = tm_delete_task("t1", "NOW");
    assert_eq!(p.cells, vec![text("NOW"), text("NOW"), text("t1")]);
    assert_eq!(pattern, fired_pattern("t1"));
    assert!(make_reminder_key("t1", "2024-01-10", 1).starts_with(&pattern[..pattern.len() - 1]));
}
