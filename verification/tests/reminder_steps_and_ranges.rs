use chrono::{Datelike, NaiveDate};
use fishworker::dictionary::normalize_query;
use fishworker::error::AppError;
use fishworker::reminder::{
    evaluate_task_reminder, get_task_target_date, next_reminder_action, ReminderAction,
    ReminderOutcome, ReminderTask, TaskReminderConfig,
};
use fishworker::youdao::check_lookup_status;

fn day(y: i32, m: u32, d: u32) -> i32 {
    NaiveDate::from_ymd_opt(y, m, d).unwrap().num_days_from_ce()
}

#[test]
fn a_due_reminder_is_recorded_and_shown_only_when_its_key_is_new() {
    assert_eq!(
        next_reminder_action("k".into(), "b".into(), Some(false)),
        ReminderAction::RecordAndNotify { key: "k".into(), body: "b".into() }
    );
    assert_eq!(next_reminder_action("k".into(), "b".into(), Some(true)), ReminderAction::Nothing);
    assert_eq!(next_reminder_action("k".into(), "b".into(), None), ReminderAction::Nothing);
}

#[test]
fn only_success_statuses_let_a_lookup_through() {
    assert_eq!(check_lookup_status(200), Ok(()));
    assert_eq!(check_lookup_status(299), Ok(()));
    assert_eq!(check_lookup_status(199), Err(AppError::Other("API 请求状态异常".into())));
    assert_eq!(check_lookup_status(404), Err(AppError::Other("API 请求状态异常".into())));
    assert_eq!(check_lookup_status(500), Err(AppError::Other("API 请求状态异常".into())));
}

#[test]
fn blank_queries_are_refused() {
    assert_eq!(normalize_query("   "), Err(AppError::Other("请输入要查询的单词".into())));
    assert_eq!(normalize_query(" Hello "), Ok("hello".to_string()));
}

#[test]
fn chrono_calendar_bounds() {
    assert_eq!(NaiveDate::MIN.num_days_from_ce(), -95_746_129);
    assert_eq!(NaiveDate::MAX.num_days_from_ce(), 95_745_399);
    assert!(chrono::DateTime::from_timestamp_millis(-8_334_601_228_800_000).is_some());
    assert!(chrono::DateTime::from_timestamp_millis(-8_334_601_228_800_001).is_none());
    assert!(chrono::DateTime::from_timestamp_millis(8_210_266_876_799_999).is_some());
    assert!(chrono::DateTime::from_timestamp_millis(8_210_266_876_800_000).is_none());
}

#[test]
fn a_deadline_sets_the_target_day_within_a_day_of_its_utc_day() {
    let noon = 1_704_974_400_000; // 2024-01-11 12:00 UTC
    let utc = day(2024, 1, 11);
    let d = get_task_target_date(Some(noon), Some("2024-06-01"), 0, day(2024, 1, 1));
    assert!(utc - 1 <= d && d <= utc + 1);
    // A deadline chrono cannot place falls back to the scheduled date.
    assert_eq!(get_task_target_date(Some(i64::MAX), Some("2024-06-01"), 0, 0), day(2024, 6, 1));
}

#[test]
fn a_reminder_day_out_of_the_calendar_is_reported() {
    let task = ReminderTask {
        id: "t".into(),
        title: "T".into(),
        deadline: None,
        scheduled_date: None,
        created_at: 0,
        reminder: String::new(),
    };
    let c = TaskReminderConfig { offset_days: 1, time: "00:00".into(), repeat: true };
    assert_eq!(evaluate_task_reminder(&task, &c, -95_746_129, -95_746_129, (0, 0)), ReminderOutcome::OutOfRange);
    let far = TaskReminderConfig { offset_days: i64::MAX, ..c.clone() };
    assert_eq!(evaluate_task_reminder(&task, &far, day(2024, 1, 1), day(2024, 1, 1), (0, 0)), ReminderOutcome::OutOfRange);
}

#[test]
fn a_deadline_puts_its_time_in_the_reminder() {
    let task = ReminderTask {
        id: "t".into(),
        title: "T".into(),
        deadline: Some(1_704_974_400_000),
        scheduled_date: None,
        created_at: 0,
        reminder: String::new(),
    };
    let target = get_task_target_date(task.deadline, None, 0, 0);
    let c = TaskReminderConfig { offset_days: 0, time: "00:00".into(), repeat: false };
    match evaluate_task_reminder(&task, &c, target, target, (23, 59)) {
        ReminderOutcome::Fire { body, .. } => assert!(body.starts_with("「T」今天到期")),
        other => panic!("expected a notification, got {:?}", other),
    }
}

#[test]
fn replacing_the_empty_pattern_surrounds_every_character() {
    assert_eq!(fishworker::text::replace_str("ab", "", "x"), "ab".replace("", "x"));
    assert_eq!(fishworker::text::replace_str("", "", "x"), "x");
    assert_eq!(fishworker::text::replace_str("a-b-c", "-", "+"), "a+b+c");
}

#[test]
fn a_bare_message_is_an_error_of_the_other_kind() {
    assert_eq!(AppError::from("m"), AppError::Other("m".into()));
    assert_eq!(AppError::from("m".to_string()), AppError::Other("m".into()));
    assert_eq!(AppError::from("m").kind(), "other");
}

#[test]
fn clock_stamps_have_the_storage_shape() {
    let s = fishworker::clock::now_iso();
    assert_eq!(s.len(), 23);
    assert!(chrono::NaiveDateTime::parse_from_str(&s, "%Y-%m-%d %H:%M:%S%.3f").is_ok());
    assert!(fishworker::clock::now_ms() > 1_600_000_000_000);
}
