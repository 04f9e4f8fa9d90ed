use fishworker::habit::habit_delete;
use fishworker::list::{
    list_delete_folder, list_delete_group, list_delete_list, list_delete_note,
    list_delete_template, list_reorder_folders, list_reorder_lists, list_reorder_notes,
};
use fishworker::mission::{
    mission_delete_goal, mission_delete_role, mission_reorder_goals, mission_reorder_roles,
};
use fishworker::pomodoro::{
    pomodoro_clear_all_records, pomodoro_delete_favorite, pomodoro_delete_record,
};
use fishworker::queries as sql;
use fishworker::row::{CellValue, Statement};

fn text(s: &str) -> CellValue {
    CellValue::Text(s.to_string())
}

fn integer(n: i64) -> CellValue {
    CellValue::Integer(n)
}

fn plan(statements: &[Statement]) -> Vec<(&'static str, Vec<CellValue>)> {
    statements.iter().map(|s| (s.sql, s.params.cells.clone())).collect()
}

#[test]
fn deleting_a_folder_unfiles_its_lists() {
    let r = list_delete_folder("f1", "T");
    assert_eq!(
        plan(&r),
        vec![
            (sql::SOFT_DELETE_FOLDER, vec![text("T"), text("T"), text("f1")]),
            (sql::UNFILE_LISTS_OF_FOLDER, vec![text("T"), text("f1")]),
        ]
    );
}

#[test]
fn deleting_a_list_deletes_its_notes_and_groups() {
    let r = list_delete_list("l1", "T", 99);
    assert_eq!(
        plan(&r),
        vec![
            (sql::SOFT_DELETE_LIST, vec![text("T"), text("l1")]),
            (sql::SOFT_DELETE_NOTES_OF_LIST, vec![integer(99), text("l1")]),
            (sql::SOFT_DELETE_GROUPS_OF_LIST, vec![text("T"), text("T"), text("l1")]),
        ]
    );
}

#[test]
fn deleting_a_group_ungroups_its_notes_first() {
    let r = list_delete_group("g1", "T", 5);
    assert_eq!(
        plan(&r),
        vec![
            (sql::UNGROUP_NOTES, vec![integer(5), text("g1")]),
            (sql::SOFT_DELETE_NOTE_GROUP, vec![text("T"), text("T"), text("g1")]),
        ]
    );
}

#[test]
fn single_deletes_stamp_the_time_twice() {
    let n = list_delete_note("n1", 7);
    assert_eq!(n.sql, sql::SOFT_DELETE_NOTE);
    assert_eq!(n.params.cells, vec![integer(7), integer(7), text("n1")]);
    let t = list_delete_template("t1", "T");
    assert_eq!(t.sql, sql::SOFT_DELETE_TEMPLATE);
    assert_eq!(t.params.cells, vec![text("T"), text("T"), text("t1")]);
    let rec = pomodoro_delete_record("r1", "T");
    assert_eq!(rec.sql, sql::SOFT_DELETE_RECORD);
    assert_eq!(rec.params.cells, vec![text("T"), text("T"), text("r1")]);
    let fav = pomodoro_delete_favorite("f1", "T");
    assert_eq!(fav.sql, sql::SOFT_DELETE_FAVORITE);
    assert_eq!(fav.params.cells, vec![text("T"), text("T"), text("f1")]);
    let goal = mission_delete_goal("g1", 3);
    assert_eq!(goal.sql, sql::SOFT_DELETE_GOAL);
    assert_eq!(goal.params.cells, vec![integer(3), integer(3), text("g1")]);
}

#[test]
fn clearing_records_marks_every_live_one() {
    let c = pomodoro_clear_all_records("T");
    assert_eq!(c.sql, sql::SOFT_DELETE_ALL_RECORDS);
    assert_eq!(c.params.cells, vec![text("T"), text("T")]);
}

#[test]
fn deleting_a_habit_deletes_its_checkins_first() {
    let r = habit_delete("h1", "T");
    assert_eq!(
        plan(&r),
        vec![
            (sql::SOFT_DELETE_CHECKINS_OF_HABIT, vec![text("T"), text("T"), text("h1")]),
            (sql::SOFT_DELETE_HABIT, vec![text("T"), text("T"), text("h1")]),
        ]
    );
}

#[test]
fn deleting_a_role_removes_goals_and_unassigns_tasks() {
    let r = mission_delete_role("r1", 11);
    assert_eq!(
        plan(&r),
        vec![
            (sql::SOFT_DELETE_GOALS_OF_ROLE, vec![integer(11), integer(11), text("r1")]),
            (sql::UNASSIGN_TASKS_OF_ROLE, vec![text("r1")]),
            (sql::SOFT_DELETE_ROLE, vec![integer(11), integer(11), text("r1")]),
        ]
    );
}

#[test]
fn reorders_give_one_statement_per_item_in_order() {
    let items = vec![("a".to_string(), 2), ("b".to_string(), 0)];
    assert_eq!(
        plan(&list_reorder_folders(&items, "T")),
        vec![
            (sql::REORDER_FOLDER, vec![integer(2), text("T"), text("a")]),
            (sql::REORDER_FOLDER, vec![integer(0), text("T"), text("b")]),
        ]
    );
    assert_eq!(
        plan(&list_reorder_lists(&items, "T")),
        vec![
            (sql::REORDER_LIST, vec![integer(2), text("T"), text("a")]),
            (sql::REORDER_LIST, vec![integer(0), text("T"), text("b")]),
        ]
    );
    assert_eq!(
        plan(&list_reorder_notes(&items, 4)),
        vec![
            (sql::REORDER_NOTE, vec![integer(2), integer(4), text("a")]),
            (sql::REORDER_NOTE, vec![integer(0), integer(4), text("b")]),
        ]
    );
    assert_eq!(
        plan(&mission_reorder_roles(&items, 4)),
        vec![
            (sql::REORDER_ROLE, vec![integer(2), integer(4), text("a")]),
            (sql::REORDER_ROLE, vec![integer(0), integer(4), text("b")]),
        ]
    );
    assert_eq!(
        plan(&mission_reorder_goals("role", &items, 4)),
        vec![
            (sql::REORDER_GOAL, vec![integer(2), integer(4), text("a"), text("role")]),
            (sql::REORDER_GOAL, vec![integer(0), integer(4), text("b"), text("role")]),
        ]
    );
    assert!(list_reorder_folders(&Vec::new(), "T").is_empty());
}
