use vstd::prelude::*;
use crate::error::AppResult;
use crate::reminder::reminder_key;
use crate::row::{
    comma_list, bool_of, cell_at, flag, flag_value, i64_of, opt_i64_of, opt_int_value, opt_int_view, opt_str_of,
    opt_text_value, opt_text_view, query_all, str_of, text_value, CellValue, CellView, FromRow, Row,
    RowExt,
};
use crate::queries::{SELECT_TASKS, UPSERT_TASK};
use crate::text::{all_white, append_str, push_char};

verus! {

// ---------------------------------------------------------------------------
// Roles and tasks of the time-management quadrants
// ---------------------------------------------------------------------------

/// A role as the quadrant page shows it.
#[derive(Debug, Clone, PartialEq)]
pub struct Role {
    pub id: String,
    pub name: String,
    pub color: Option<String>,
    pub created_at: i64,
}

pub struct RoleView {
    pub id: Seq<char>,
    pub name: Seq<char>,
    pub color: Option<Seq<char>>,
    pub created_at: i64,
}

impl View for Role {
    type V = RoleView;

    open spec fn view(&self) -> RoleView {
        RoleView {
            id: self.id@,
            name: self.name@,
            color: self.color.deep_view(),
            created_at: self.created_at,
        }
    }
}

/// A role as a row `id, name, created_at` reads; roles carry no colour here.
pub open spec fn read_role(row: Seq<CellView>) -> RoleView {
    RoleView {
        id: str_of(cell_at(row, 0)),
        name: str_of(cell_at(row, 1)),
        color: None,
        created_at: i64_of(cell_at(row, 2)),
    }
}

impl FromRow for Role {
    open spec fn readable(row: Seq<CellView>) -> bool {
        true
    }

    open spec fn reads_ok(row: Seq<CellView>) -> bool {
        true
    }

    open spec fn reads_as(row: Seq<CellView>, v: Role) -> bool {
        v@ == read_role(row)
    }

    fn from_row(row: &Row) -> (r: AppResult<Role>) {
        Ok(Role { id: row.parse_str(0), name: row.parse_str(1), color: None, created_at: row.parse_i64(2) })
    }
}

#[derive(Debug, Clone, PartialEq)]
pub struct Task {
    pub id: String,
    pub title: String,
    pub role_id: Option<String>,
    pub quadrant: String,
    pub scheduled_date: Option<String>,
    pub time_of_day: Option<String>,
    pub completed: bool,
    pub created_at: i64,
    pub completed_at: Option<i64>,
    pub description: Option<String>,
    pub deadline: Option<i64>,
    pub reminder: Option<String>,
}

pub struct TaskView {
    pub id: Seq<char>,
    pub title: Seq<char>,
    pub role_id: Option<Seq<char>>,
    pub quadrant: Seq<char>,
    pub scheduled_date: Option<Seq<char>>,
    pub time_of_day: Option<Seq<char>>,
    pub completed: bool,
    pub created_at: i64,
    pub completed_at: Option<i64>,
    pub description: Option<Seq<char>>,
    pub deadline: Option<i64>,
    pub reminder: Option<Seq<char>>,
}

impl View for Task {
    type V = TaskView;

    open spec fn view(&self) -> TaskView {
        TaskView {
            id: self.id@,
            title: self.title@,
            role_id: self.role_id.deep_view(),
            quadrant: self.quadrant@,
            scheduled_date: self.scheduled_date.deep_view(),
            time_of_day: self.time_of_day.deep_view(),
            completed: self.completed,
            created_at: self.created_at,
            completed_at: self.completed_at,
            description: self.description.deep_view(),
            deadline: self.deadline,
            reminder: self.reminder.deep_view(),
        }
    }
}

/// A task as a row `id, title, role_id, quadrant, scheduled_date,
/// time_of_day, completed, created_at, completed_at, description, deadline,
/// reminder` reads.
pub open spec fn read_task(row: Seq<CellView>) -> TaskView {
    TaskView {
        id: str_of(cell_at(row, 0)),
        title: str_of(cell_at(row, 1)),
        role_id: opt_str_of(cell_at(row, 2)),
        quadrant: str_of(cell_at(row, 3)),
        scheduled_date: opt_str_of(cell_at(row, 4)),
        time_of_day: opt_str_of(cell_at(row, 5)),
        completed: bool_of(cell_at(row, 6)),
        created_at: i64_of(cell_at(row, 7)),
        completed_at: opt_i64_of(cell_at(row, 8)),
        description: opt_str_of(cell_at(row, 9)),
        deadline: opt_i64_of(cell_at(row, 10)),
        reminder: opt_str_of(cell_at(row, 11)),
    }
}

impl FromRow for Task {
    open spec fn readable(row: Seq<CellView>) -> bool {
        true
    }

    open spec fn reads_ok(row: Seq<CellView>) -> bool {
        true
    }

    open spec fn reads_as(row: Seq<CellView>, v: Task) -> bool {
        v@ == read_task(row)
    }

    fn from_row(row: &Row) -> (r: AppResult<Task>) {
        Ok(
            Task {
                id: row.parse_str(0),
                title: row.parse_str(1),
                role_id: row.parse_opt_str(2),
                quadrant: row.parse_str(3),
                scheduled_date: row.parse_opt_str(4),
                time_of_day: row.parse_opt_str(5),
                completed: row.parse_bool(6),
                created_at: row.parse_i64(7),
                completed_at: row.parse_opt_i64(8),
                description: row.parse_opt_str(9),
                deadline: row.parse_opt_i64(10),
                reminder: row.parse_opt_str(11),
            },
        )
    }
}

/// Everything the quadrant page loads at once.
#[derive(Debug, Clone, PartialEq)]
pub struct TimeManagementData {
    pub roles: Vec<Role>,
    pub tasks: Vec<Task>,
}

/// The quadrant page's data from the rows of its two queries.
pub fn tm_load_all(roles: &Vec<Row>, tasks: &Vec<Row>) -> (r: AppResult<TimeManagementData>)
    ensures
        r matches Ok(d) && {
            &&& d.roles@.len() == roles@.len()
            &&& forall|i: int| 0 <= i < roles@.len() ==> #[trigger] d.roles@[i]@ == read_role(roles@[i]@)
            &&& d.tasks@.len() == tasks@.len()
            &&& forall|i: int| 0 <= i < tasks@.len() ==> #[trigger] d.tasks@[i]@ == read_task(tasks@[i]@)
        },
{
    let roles_out = query_all::<Role>(roles)?;
    let tasks_out = query_all::<Task>(tasks)?;
    proof {
        assert forall|i: int| 0 <= i < roles@.len() implies #[trigger] roles_out@[i]@ == read_role(
            roles@[i]@,
        ) by {
            assert(Role::reads_as(roles@[i]@, roles_out@[i]));
        }
        assert forall|i: int| 0 <= i < tasks@.len() implies #[trigger] tasks_out@[i]@ == read_task(
            tasks@[i]@,
        ) by {
            assert(Task::reads_as(tasks@[i]@, tasks_out@[i]));
        }
    }
    Ok(TimeManagementData { roles: roles_out, tasks: tasks_out })
}

// ---------------------------------------------------------------------------
// Writing tasks
// ---------------------------------------------------------------------------

/// The values a task upsert binds: the task's columns in the order they are
/// read, then the time of the write.
pub open spec fn task_params(t: TaskView, now: Seq<char>) -> Seq<CellView> {
    seq![
        CellView::Text(t.id),
        CellView::Text(t.title),
        opt_text_view(t.role_id),
        CellView::Text(t.quadrant),
        opt_text_view(t.scheduled_date),
        opt_text_view(t.time_of_day),
        CellView::Integer(flag(t.completed)),
        CellView::Integer(t.created_at),
        opt_int_view(t.completed_at),
        opt_text_view(t.description),
        opt_int_view(t.deadline),
        opt_text_view(t.reminder),
        CellView::Text(now),
    ]
}

/// The `LIKE` pattern of every fired-reminder key of a task: `<id>@%`.
pub open spec fn fired_key_pattern(id: Seq<char>) -> Seq<char> {
    id + seq!['@', '%']
}

pub fn fired_pattern(id: &str) -> (p: String)
    ensures
        p@ == fired_key_pattern(id@),
{
    let mut p = String::new();
    append_str(&mut p, id);
    push_char(&mut p, '@');
    push_char(&mut p, '%');
    p
}

/// What saving a task writes: the upsert's values and, for a completed
/// task, the pattern of the fired-reminder keys to clear.
pub struct TaskWrite {
    pub params: Row,
    pub clear_fired: Option<String>,
}

pub fn tm_upsert_task(t: &Task, now: &str) -> (w: TaskWrite)
    ensures
        w.params@ == task_params(t@, now@),
        w.clear_fired.deep_view() == if t.completed {
            Some(fired_key_pattern(t.id@))
        } else {
            None
        },
{
    let mut cells: Vec<CellValue> = Vec::new();
    cells.push(text_value(t.id.as_str()));
    cells.push(text_value(t.title.as_str()));
    cells.push(opt_text_value(&t.role_id));
    cells.push(text_value(t.quadrant.as_str()));
    cells.push(opt_text_value(&t.scheduled_date));
    cells.push(opt_text_value(&t.time_of_day));
    cells.push(flag_value(t.completed));
    cells.push(CellValue::Integer(t.created_at));
    cells.push(opt_int_value(t.completed_at));
    cells.push(opt_text_value(&t.description));
    cells.push(opt_int_value(t.deadline));
    cells.push(opt_text_value(&t.reminder));
    cells.push(text_value(now));
    let params = Row { cells };
    assert(params@ =~= task_params(t@, now@));
    let clear_fired = if t.completed {
        Some(fired_pattern(t.id.as_str()))
    } else {
        None
    };
    TaskWrite { params, clear_fired }
}

/// What deleting a task writes: the soft delete's values `deleted_at,
/// updated_at, id`, and the pattern of its fired-reminder keys to clear.
pub fn tm_delete_task(id: &str, now: &str) -> (r: (Row, String))
    ensures
        r.0@ == seq![CellView::Text(now@), CellView::Text(now@), CellView::Text(id@)],
        r.1@ == fired_key_pattern(id@),
{
    let mut cells: Vec<CellValue> = Vec::new();
    cells.push(text_value(now));
    cells.push(text_value(now));
    cells.push(text_value(id));
    let r = Row { cells };
    assert(r@ =~= seq![CellView::Text(now@), CellView::Text(now@), CellView::Text(id@)]);
    (r, fired_pattern(id))
}

// ---------------------------------------------------------------------------
// Laws
// ---------------------------------------------------------------------------

/// Every fired-reminder key of a task starts with the part of its clearing
/// pattern before the wildcard, so completing or deleting the task clears
/// them all.
pub proof fn law_fired_keys_cleared(id: Seq<char>, today_text: Seq<char>, offset_days: i64)
    ensures
        fired_key_pattern(id).drop_last().is_prefix_of(reminder_key(id, today_text, offset_days)),
        fired_key_pattern(id).last() == '%',
{
    let p = fired_key_pattern(id).drop_last();
    let k = reminder_key(id, today_text, offset_days);
    assert(p =~= id + seq!['@']);
    assert forall|i: int| 0 <= i < p.len() implies p[i] == k[i] by {
        if i < id.len() {
            assert(k[i] == id[i]);
        } else {
            assert(k[i] == '@');
        }
    }
}

/// What a load gives back of an upserted task: the task itself, for a task
/// whose optional texts are missing or not blank.
pub proof fn law_task_round_trip(t: TaskView, now: Seq<char>)
    requires
        t.role_id matches Some(s) ==> !all_white(s),
        t.scheduled_date matches Some(s) ==> !all_white(s),
        t.time_of_day matches Some(s) ==> !all_white(s),
        t.description matches Some(s) ==> !all_white(s),
        t.reminder matches Some(s) ==> !all_white(s),
    ensures
        read_task(task_params(t, now).take(12)) == t,
{
    let row = task_params(t, now).take(12);
    assert(cell_at(row, 0) == Some(CellView::Text(t.id)));
    assert(cell_at(row, 1) == Some(CellView::Text(t.title)));
    assert(cell_at(row, 2) == Some(opt_text_view(t.role_id)));
    assert(cell_at(row, 3) == Some(CellView::Text(t.quadrant)));
    assert(cell_at(row, 4) == Some(opt_text_view(t.scheduled_date)));
    assert(cell_at(row, 5) == Some(opt_text_view(t.time_of_day)));
    assert(cell_at(row, 6) == Some(CellView::Integer(flag(t.completed))));
    assert(cell_at(row, 7) == Some(CellView::Integer(t.created_at)));
    assert(cell_at(row, 8) == Some(opt_int_view(t.completed_at)));
    assert(cell_at(row, 9) == Some(opt_text_view(t.description)));
    assert(cell_at(row, 10) == Some(opt_int_view(t.deadline)));
    assert(cell_at(row, 11) == Some(opt_text_view(t.reminder)));
    crate::row::lemma_read_opt_text(t.role_id);
    crate::row::lemma_read_opt_text(t.scheduled_date);
    crate::row::lemma_read_opt_text(t.time_of_day);
    crate::row::lemma_read_opt_text(t.description);
    crate::row::lemma_read_opt_text(t.reminder);
    crate::row::lemma_read_flag(t.completed);
}


/// What the time-management load gives back of an upserted task: wherever
/// the row the database holds for it comes among the rows read, the task
/// loaded there is the task itself (for a task whose optional texts are
/// missing or not blank).
pub proof fn law_task_load_round_trip(
    t: TaskView,
    now: Seq<char>,
    rows: Seq<Seq<CellView>>,
    i: int,
    loaded: Seq<TaskView>,
)
    requires
        t.role_id matches Some(s) ==> !all_white(s),
        t.scheduled_date matches Some(s) ==> !all_white(s),
        t.time_of_day matches Some(s) ==> !all_white(s),
        t.description matches Some(s) ==> !all_white(s),
        t.reminder matches Some(s) ==> !all_white(s),
        0 <= i < rows.len(),
        rows[i] == task_params(t, now).take(12),
        loaded.len() == rows.len(),
        forall|j: int| 0 <= j < rows.len() ==> #[trigger] loaded[j] == read_task(rows[j]),
    ensures
        loaded[i] == t,
{
    law_task_round_trip(t, now);
    assert(loaded[i] == read_task(rows[i]));
}

/// The tasks a load reads hold one task with an upserted task's id: the
/// table's key is the id, so the rows read have distinct text ids, and only
/// the row the database holds for the task reads with that id.
pub proof fn law_task_load_unique(
    t: TaskView,
    now: Seq<char>,
    rows: Seq<Seq<CellView>>,
    i: int,
    loaded: Seq<TaskView>,
)
    requires
        0 <= i < rows.len(),
        rows[i] == task_params(t, now).take(12),
        forall|j: int| 0 <= j < rows.len() ==> (#[trigger] cell_at(rows[j], 0)) is Some && cell_at(
            rows[j],
            0,
        )->0 is Text,
        forall|j: int, k: int|
            0 <= j < rows.len() && 0 <= k < rows.len() && j != k ==> #[trigger] cell_at(rows[j], 0)
                != #[trigger] cell_at(rows[k], 0),
        loaded.len() == rows.len(),
        forall|j: int| 0 <= j < rows.len() ==> #[trigger] loaded[j] == read_task(rows[j]),
    ensures
        forall|j: int| 0 <= j < loaded.len() && #[trigger] loaded[j].id == t.id ==> j == i,
{
    assert(cell_at(rows[i], 0) == Some(CellView::Text(t.id)));
    assert forall|j: int| 0 <= j < loaded.len() && #[trigger] loaded[j].id == t.id implies j == i by {
        assert(loaded[j] == read_task(rows[j]));
        assert(cell_at(rows[j], 0) is Some);
        if j != i {
            assert(cell_at(rows[j], 0) != cell_at(rows[i], 0));
        }
    }
}

/// The columns of a task, in the order the task query selects them and the
/// upsert names them (the upsert adds `updated_at`).
pub open spec fn task_columns() -> Seq<Seq<char>> {
    seq![
        "id"@,
        "title"@,
        "role_id"@,
        "quadrant"@,
        "scheduled_date"@,
        "time_of_day"@,
        "completed"@,
        "created_at"@,
        "completed_at"@,
        "description"@,
        "deadline"@,
        "reminder"@,
    ]
}

proof fn reveal_task_names()
    ensures
        task_columns() == seq![
            seq!['i', 'd'],
            seq!['t', 'i', 't', 'l', 'e'],
            seq!['r', 'o', 'l', 'e', '_', 'i', 'd'],
            seq!['q', 'u', 'a', 'd', 'r', 'a', 'n', 't'],
            seq!['s', 'c', 'h', 'e', 'd', 'u', 'l', 'e', 'd', '_', 'd', 'a', 't', 'e'],
            seq!['t', 'i', 'm', 'e', '_', 'o', 'f', '_', 'd', 'a', 'y'],
            seq!['c', 'o', 'm', 'p', 'l', 'e', 't', 'e', 'd'],
            seq!['c', 'r', 'e', 'a', 't', 'e', 'd', '_', 'a', 't'],
            seq!['c', 'o', 'm', 'p', 'l', 'e', 't', 'e', 'd', '_', 'a', 't'],
            seq!['d', 'e', 's', 'c', 'r', 'i', 'p', 't', 'i', 'o', 'n'],
            seq!['d', 'e', 'a', 'd', 'l', 'i', 'n', 'e'],
            seq!['r', 'e', 'm', 'i', 'n', 'd', 'e', 'r'],
        ],
{
    reveal_strlit("id");
    reveal_strlit("title");
    reveal_strlit("role_id");
    reveal_strlit("quadrant");
    reveal_strlit("scheduled_date");
    reveal_strlit("time_of_day");
    reveal_strlit("completed");
    reveal_strlit("created_at");
    reveal_strlit("completed_at");
    reveal_strlit("description");
    reveal_strlit("deadline");
    reveal_strlit("reminder");
    assert(task_columns() =~~= seq![
        seq!['i', 'd'],
        seq!['t', 'i', 't', 'l', 'e'],
        seq!['r', 'o', 'l', 'e', '_', 'i', 'd'],
        seq!['q', 'u', 'a', 'd', 'r', 'a', 'n', 't'],
        seq!['s', 'c', 'h', 'e', 'd', 'u', 'l', 'e', 'd', '_', 'd', 'a', 't', 'e'],
        seq!['t', 'i', 'm', 'e', '_', 'o', 'f', '_', 'd', 'a', 'y'],
        seq!['c', 'o', 'm', 'p', 'l', 'e', 't', 'e', 'd'],
        seq!['c', 'r', 'e', 'a', 't', 'e', 'd', '_', 'a', 't'],
        seq!['c', 'o', 'm', 'p', 'l', 'e', 't', 'e', 'd', '_', 'a', 't'],
        seq!['d', 'e', 's', 'c', 'r', 'i', 'p', 't', 'i', 'o', 'n'],
        seq!['d', 'e', 'a', 'd', 'l', 'i', 'n', 'e'],
        seq!['r', 'e', 'm', 'i', 'n', 'd', 'e', 'r'],
    ]);
}

/// The task query and upsert name the columns `task_columns` lists, in that
/// order, and the upsert binds `?k` to its `k`-th column.
pub proof fn law_task_queries_name_the_columns()
    ensures
        SELECT_TASKS@ == "SELECT "@ + comma_list(task_columns())
            + " FROM time_management_tasks WHERE deleted_at IS NULL"@,
        ("INSERT INTO time_management_tasks ("@ + comma_list(task_columns().push("updated_at"@))
            + ") VALUES (?1, ?2, ?3, ?4, ?5, ?6, ?7, ?8, ?9, ?10, ?11, ?12, ?13)"@).is_prefix_of(
            UPSERT_TASK@,
        ),
{
    reveal_with_fuel(comma_list, 14);
    reveal_strlit("SELECT id, title, role_id, quadrant, scheduled_date, time_of_day, completed, created_at, completed_at, description, deadline, reminder FROM time_management_tasks WHERE deleted_at IS NULL");
    reveal_strlit("INSERT INTO time_management_tasks (id, title, role_id, quadrant, scheduled_date, time_of_day, completed, created_at, completed_at, description, deadline, reminder, updated_at) VALUES (?1, ?2, ?3, ?4, ?5, ?6, ?7, ?8, ?9, ?10, ?11, ?12, ?13) ON CONFLICT(id) DO UPDATE SET title = excluded.title, role_id = excluded.role_id, quadrant = excluded.quadrant, scheduled_date = excluded.scheduled_date, time_of_day = excluded.time_of_day, completed = excluded.completed, created_at = excluded.created_at, completed_at = excluded.completed_at, description = excluded.description, deadline = excluded.deadline, reminder = excluded.reminder, updated_at = excluded.updated_at");
    reveal_strlit("SELECT ");
    reveal_strlit(" FROM time_management_tasks WHERE deleted_at IS NULL");
    reveal_strlit("INSERT INTO time_management_tasks (");
    reveal_strlit(") VALUES (?1, ?2, ?3, ?4, ?5, ?6, ?7, ?8, ?9, ?10, ?11, ?12, ?13)");
    reveal_strlit(", ");
    reveal_task_names();
    reveal_strlit("updated_at");
    assert(SELECT_TASKS@ =~= "SELECT "@ + comma_list(task_columns())
        + " FROM time_management_tasks WHERE deleted_at IS NULL"@);
    let pre = "INSERT INTO time_management_tasks ("@ + comma_list(task_columns().push("updated_at"@))
        + ") VALUES (?1, ?2, ?3, ?4, ?5, ?6, ?7, ?8, ?9, ?10, ?11, ?12, ?13)"@;
    assert(pre =~= UPSERT_TASK@.take(pre.len() as int));
}

/// Each field of a task is read from the column the task query names for
/// it, and the upsert binds it where the upsert names that column: the field
/// `f` is the column at the place of `f` in `task_columns`, which
/// `law_task_queries_name_the_columns` ties to the queries' text.
pub proof fn law_task_fields_follow_column_names(row: Seq<CellView>, t: TaskView, now: Seq<char>)
    ensures
        task_columns()[0] == "id"@ && read_task(row).id == str_of(cell_at(row, 0))
            && task_params(t, now)[0] == CellView::Text(t.id),
        task_columns()[1] == "title"@ && read_task(row).title == str_of(cell_at(row, 1))
            && task_params(t, now)[1] == CellView::Text(t.title),
        task_columns()[2] == "role_id"@ && read_task(row).role_id == opt_str_of(cell_at(row, 2))
            && task_params(t, now)[2] == opt_text_view(t.role_id),
        task_columns()[3] == "quadrant"@ && read_task(row).quadrant == str_of(cell_at(row, 3))
            && task_params(t, now)[3] == CellView::Text(t.quadrant),
        task_columns()[4] == "scheduled_date"@ && read_task(row).scheduled_date == opt_str_of(cell_at(row, 4))
            && task_params(t, now)[4] == opt_text_view(t.scheduled_date),
        task_columns()[5] == "time_of_day"@ && read_task(row).time_of_day == opt_str_of(cell_at(row, 5))
            && task_params(t, now)[5] == opt_text_view(t.time_of_day),
        task_columns()[6] == "completed"@ && read_task(row).completed == bool_of(cell_at(row, 6))
            && task_params(t, now)[6] == CellView::Integer(flag(t.completed)),
        task_columns()[7] == "created_at"@ && read_task(row).created_at == i64_of(cell_at(row, 7))
            && task_params(t, now)[7] == CellView::Integer(t.created_at),
        task_columns()[8] == "completed_at"@ && read_task(row).completed_at == opt_i64_of(cell_at(row, 8))
            && task_params(t, now)[8] == opt_int_view(t.completed_at),
        task_columns()[9] == "description"@ && read_task(row).description == opt_str_of(cell_at(row, 9))
            && task_params(t, now)[9] == opt_text_view(t.description),
        task_columns()[10] == "deadline"@ && read_task(row).deadline == opt_i64_of(cell_at(row, 10))
            && task_params(t, now)[10] == opt_int_view(t.deadline),
        task_columns()[11] == "reminder"@ && read_task(row).reminder == opt_str_of(cell_at(row, 11))
            && task_params(t, now)[11] == opt_text_view(t.reminder),
{
    reveal_task_names();
    reveal_strlit("id");
    reveal_strlit("title");
    reveal_strlit("role_id");
    reveal_strlit("quadrant");
    reveal_strlit("scheduled_date");
    reveal_strlit("time_of_day");
    reveal_strlit("completed");
    reveal_strlit("created_at");
    reveal_strlit("completed_at");
    reveal_strlit("description");
    reveal_strlit("deadline");
    reveal_strlit("reminder");
}

} // verus!
