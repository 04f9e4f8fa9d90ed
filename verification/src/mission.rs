use vstd::prelude::*;
use crate::clock::{millis_in_range, now_ms};
use crate::error::{AppError, AppResult};
use crate::ids::{uuid_shaped, uuid_v4_text};
use crate::row::{
    comma_list, cell_at, is_integer_or_null, is_null_value_error, is_text_or_null, opt_text_value,
    opt_text_view, query_all, reorder_row, reorder_statements, soft_delete_params, soft_delete_row,
    statement, statements_view, text_value, typed_int, typed_text, CellValue, CellView, FromRow, Row,
    Statement,
};
use crate::queries::{
    REORDER_GOAL, REORDER_ROLE, SOFT_DELETE_GOAL, SOFT_DELETE_GOALS_OF_ROLE, SOFT_DELETE_ROLE,
    UNASSIGN_TASKS_OF_ROLE, SELECT_ROLES, SELECT_GOALS, INSERT_ROLE,
};

verus! {

// ---------------------------------------------------------------------------
// Mission statement, roles and goals. Timestamps are UNIX milliseconds.
// Rows are read with the driver's typed reads: a NULL id is an error, any
// other NULL reads as a default.
// ---------------------------------------------------------------------------

#[derive(Debug, Clone, PartialEq)]
pub struct MissionStatement {
    pub id: String,
    pub content: String,
    pub updated_at: i64,
}

pub struct StatementView {
    pub id: Seq<char>,
    pub content: Seq<char>,
    pub updated_at: i64,
}

impl View for MissionStatement {
    type V = StatementView;

    open spec fn view(&self) -> StatementView {
        StatementView { id: self.id@, content: self.content@, updated_at: self.updated_at }
    }
}

#[derive(Debug, Clone, PartialEq)]
pub struct Role {
    pub id: String,
    pub name: String,
    pub icon: String,
    pub sort_order: i32,
    pub created_at: i64,
    pub updated_at: i64,
}

pub struct RoleView {
    pub id: Seq<char>,
    pub name: Seq<char>,
    pub icon: Seq<char>,
    pub sort_order: i32,
    pub created_at: i64,
    pub updated_at: i64,
}

impl View for Role {
    type V = RoleView;

    open spec fn view(&self) -> RoleView {
        RoleView {
            id: self.id@,
            name: self.name@,
            icon: self.icon@,
            sort_order: self.sort_order,
            created_at: self.created_at,
            updated_at: self.updated_at,
        }
    }
}

#[derive(Debug, Clone, PartialEq)]
pub struct Goal {
    pub id: String,
    pub role_id: String,
    pub title: String,
    pub status: String,
    pub time_scope: String,
    pub start_date: Option<String>,
    pub end_date: Option<String>,
    pub sort_order: i32,
    pub created_at: i64,
    pub updated_at: i64,
}

pub struct GoalView {
    pub id: Seq<char>,
    pub role_id: Seq<char>,
    pub title: Seq<char>,
    pub status: Seq<char>,
    pub time_scope: Seq<char>,
    pub start_date: Option<Seq<char>>,
    pub end_date: Option<Seq<char>>,
    pub sort_order: i32,
    pub created_at: i64,
    pub updated_at: i64,
}

impl View for Goal {
    type V = GoalView;

    open spec fn view(&self) -> GoalView {
        GoalView {
            id: self.id@,
            role_id: self.role_id@,
            title: self.title@,
            status: self.status@,
            time_scope: self.time_scope@,
            start_date: self.start_date.deep_view(),
            end_date: self.end_date.deep_view(),
            sort_order: self.sort_order,
            created_at: self.created_at,
            updated_at: self.updated_at,
        }
    }
}

/// Everything the mission page loads at once.
#[derive(Debug, Clone, PartialEq)]
pub struct MissionAllData {
    pub statement: Option<MissionStatement>,
    pub roles: Vec<Role>,
    pub goals: Vec<Goal>,
}

// ---------------------------------------------------------------------------
// Typed reads with defaults
// ---------------------------------------------------------------------------

pub open spec fn text_or_default(row: Seq<CellView>, idx: usize) -> Seq<char> {
    match typed_text(cell_at(row, idx)) {
        Some(s) => s,
        None => Seq::empty(),
    }
}

pub open spec fn int_or_zero(row: Seq<CellView>, idx: usize) -> i64 {
    match typed_int(cell_at(row, idx)) {
        Some(n) => n,
        None => 0,
    }
}

/// `row.get::<i32>(idx).unwrap_or(0)`: the stored integer as an `i32`
/// (truncated, as the driver converts it), 0 for a NULL.
pub open spec fn i32_or_zero(row: Seq<CellView>, idx: usize) -> i32 {
    match typed_int(cell_at(row, idx)) {
        Some(n) => n as i32,
        None => 0,
    }
}

fn read_i32_or_zero(row: &Row, idx: usize) -> (r: i32)
    requires
        is_integer_or_null(cell_at(row@, idx)),
    ensures
        r == i32_or_zero(row@, idx),
{
    match row.get_int(idx) {
        Some(n) => {
            #[verifier::truncate]
            let v = n as i32;
            v
        },
        None => 0,
    }
}

fn null_value_error() -> (e: AppError)
    ensures
        is_null_value_error(e),
{
    proof {
        reveal_strlit("Null value");
    }
    AppError::Db("Null value".to_string())
}

// ---------------------------------------------------------------------------
// Reading rows
// ---------------------------------------------------------------------------

/// A statement row `id, content, updated_at` of the expected column types.
pub open spec fn statement_row_ok(row: Seq<CellView>) -> bool {
    &&& is_text_or_null(cell_at(row, 0))
    &&& is_text_or_null(cell_at(row, 1))
    &&& is_integer_or_null(cell_at(row, 2))
}

pub open spec fn read_statement(row: Seq<CellView>) -> StatementView {
    StatementView {
        id: text_or_default(row, 0),
        content: text_or_default(row, 1),
        updated_at: int_or_zero(row, 2),
    }
}

/// A role row `id, name, icon, sort_order, created_at, updated_at` of the
/// expected column types.
pub open spec fn role_row_ok(row: Seq<CellView>) -> bool {
    &&& is_text_or_null(cell_at(row, 0))
    &&& is_text_or_null(cell_at(row, 1))
    &&& is_text_or_null(cell_at(row, 2))
    &&& is_integer_or_null(cell_at(row, 3))
    &&& is_integer_or_null(cell_at(row, 4))
    &&& is_integer_or_null(cell_at(row, 5))
}

pub open spec fn read_role(row: Seq<CellView>) -> RoleView {
    RoleView {
        id: text_or_default(row, 0),
        name: text_or_default(row, 1),
        icon: text_or_default(row, 2),
        sort_order: i32_or_zero(row, 3),
        created_at: int_or_zero(row, 4),
        updated_at: int_or_zero(row, 5),
    }
}

impl FromRow for Role {
    open spec fn readable(row: Seq<CellView>) -> bool {
        role_row_ok(row)
    }

    open spec fn reads_ok(row: Seq<CellView>) -> bool {
        typed_text(cell_at(row, 0)) is Some
    }

    open spec fn reads_as(row: Seq<CellView>, v: Role) -> bool {
        v@ == read_role(row)
    }

    fn from_row(row: &Row) -> (r: AppResult<Role>) {
        let id = match row.get_text(0) {
            Some(s) => s,
            None => {
                return Err(null_value_error());
            },
        };
        Ok(
            Role {
                id,
                name: row.text_or_default(1),
                icon: row.text_or_default(2),
                sort_order: read_i32_or_zero(row, 3),
                created_at: row.int_or_zero(4),
                updated_at: row.int_or_zero(5),
            },
        )
    }
}

/// A goal row `id, role_id, title, status, time_scope, start_date,
/// end_date, sort_order, created_at, updated_at` of the expected column types.
pub open spec fn goal_row_ok(row: Seq<CellView>) -> bool {
    &&& is_text_or_null(cell_at(row, 0))
    &&& is_text_or_null(cell_at(row, 1))
    &&& is_text_or_null(cell_at(row, 2))
    &&& is_text_or_null(cell_at(row, 3))
    &&& is_text_or_null(cell_at(row, 4))
    &&& is_text_or_null(cell_at(row, 5))
    &&& is_text_or_null(cell_at(row, 6))
    &&& is_integer_or_null(cell_at(row, 7))
    &&& is_integer_or_null(cell_at(row, 8))
    &&& is_integer_or_null(cell_at(row, 9))
}

pub open spec fn read_goal(row: Seq<CellView>) -> GoalView {
    GoalView {
        id: text_or_default(row, 0),
        role_id: text_or_default(row, 1),
        title: text_or_default(row, 2),
        status: text_or_default(row, 3),
        time_scope: text_or_default(row, 4),
        start_date: typed_text(cell_at(row, 5)),
        end_date: typed_text(cell_at(row, 6)),
        sort_order: i32_or_zero(row, 7),
        created_at: int_or_zero(row, 8),
        updated_at: int_or_zero(row, 9),
    }
}

impl FromRow for Goal {
    open spec fn readable(row: Seq<CellView>) -> bool {
        goal_row_ok(row)
    }

    open spec fn reads_ok(row: Seq<CellView>) -> bool {
        typed_text(cell_at(row, 0)) is Some
    }

    open spec fn reads_as(row: Seq<CellView>, v: Goal) -> bool {
        v@ == read_goal(row)
    }

    fn from_row(row: &Row) -> (r: AppResult<Goal>) {
        let id = match row.get_text(0) {
            Some(s) => s,
            None => {
                return Err(null_value_error());
            },
        };
        Ok(
            Goal {
                id,
                role_id: row.text_or_default(1),
                title: row.text_or_default(2),
                status: row.text_or_default(3),
                time_scope: row.text_or_default(4),
                start_date: row.get_text(5),
                end_date: row.get_text(6),
                sort_order: read_i32_or_zero(row, 7),
                created_at: row.int_or_zero(8),
                updated_at: row.int_or_zero(9),
            },
        )
    }
}

/// The statement of its query's first row, none when there is no row.
pub fn statement_from_row(row: Option<&Row>) -> (r: AppResult<Option<MissionStatement>>)
    requires
        row matches Some(x) ==> statement_row_ok(x@),
    ensures
        r is Err <==> (row matches Some(x) && typed_text(cell_at(x@, 0)) is None),
        r matches Ok(s) ==> match row {
            Some(x) => s matches Some(st) && st@ == read_statement(x@),
            None => s is None,
        },
        r matches Err(e) ==> is_null_value_error(e),
{
    match row {
        Some(x) => {
            let id = match x.get_text(0) {
                Some(s) => s,
                None => {
                    return Err(null_value_error());
                },
            };
            Ok(
                Some(
                    MissionStatement {
                        id,
                        content: x.text_or_default(1),
                        updated_at: x.int_or_zero(2),
                    },
                ),
            )
        },
        None => Ok(None),
    }
}

/// The mission page's data from its statement row and the rows of its role
/// and goal queries. It fails, with the driver's NULL error, exactly when
/// one of them has no id.
pub fn mission_load_all(statement: Option<&Row>, roles: &Vec<Row>, goals: &Vec<Row>) -> (r:
    AppResult<MissionAllData>)
    requires
        statement matches Some(x) ==> statement_row_ok(x@),
        forall|i: int| 0 <= i < roles@.len() ==> role_row_ok(#[trigger] roles@[i]@),
        forall|i: int| 0 <= i < goals@.len() ==> goal_row_ok(#[trigger] goals@[i]@),
    ensures
        r is Ok <==> {
            &&& (statement matches Some(x) ==> typed_text(cell_at(x@, 0)) is Some)
            &&& forall|i: int|
                0 <= i < roles@.len() ==> typed_text(cell_at(#[trigger] roles@[i]@, 0)) is Some
            &&& forall|i: int|
                0 <= i < goals@.len() ==> typed_text(cell_at(#[trigger] goals@[i]@, 0)) is Some
        },
        r matches Ok(d) ==> {
            &&& match statement {
                Some(x) => d.statement matches Some(st) && st@ == read_statement(x@),
                None => d.statement is None,
            }
            &&& d.roles@.len() == roles@.len()
            &&& forall|i: int| 0 <= i < roles@.len() ==> #[trigger] d.roles@[i]@ == read_role(roles@[i]@)
            &&& d.goals@.len() == goals@.len()
            &&& forall|i: int| 0 <= i < goals@.len() ==> #[trigger] d.goals@[i]@ == read_goal(goals@[i]@)
        },
        r matches Err(e) ==> is_null_value_error(e),
{
    proof {
        assert forall|i: int| 0 <= i < roles@.len() implies Role::readable(#[trigger] roles@[i]@) by {
            assert(role_row_ok(roles@[i]@));
        }
        assert forall|i: int| 0 <= i < goals@.len() implies Goal::readable(#[trigger] goals@[i]@) by {
            assert(goal_row_ok(goals@[i]@));
        }
    }
    let st = statement_from_row(statement)?;
    let roles_out = match query_all::<Role>(roles) {
        Ok(v) => v,
        Err(e) => {
            proof {
                let i = choose|i: int| 0 <= i < roles@.len() && !Role::reads_ok(#[trigger] roles@[i]@);
                assert(typed_text(cell_at(roles@[i]@, 0)) is None);
            }
            return Err(e);
        },
    };
    let goals_out = match query_all::<Goal>(goals) {
        Ok(v) => v,
        Err(e) => {
            proof {
                let i = choose|i: int| 0 <= i < goals@.len() && !Goal::reads_ok(#[trigger] goals@[i]@);
                assert(typed_text(cell_at(goals@[i]@, 0)) is None);
            }
            return Err(e);
        },
    };
    proof {
        assert forall|i: int| 0 <= i < roles@.len() implies #[trigger] roles_out@[i]@ == read_role(
            roles@[i]@,
        ) by {
            assert(Role::reads_as(roles@[i]@, roles_out@[i]));
        }
        assert forall|i: int| 0 <= i < goals@.len() implies #[trigger] goals_out@[i]@ == read_goal(
            goals@[i]@,
        ) by {
            assert(Goal::reads_as(goals@[i]@, goals_out@[i]));
        }
        assert forall|i: int| 0 <= i < roles@.len() implies typed_text(
            cell_at(#[trigger] roles@[i]@, 0),
        ) is Some by {
            assert(Role::reads_ok(roles@[i]@));
        }
        assert forall|i: int| 0 <= i < goals@.len() implies typed_text(
            cell_at(#[trigger] goals@[i]@, 0),
        ) is Some by {
            assert(Goal::reads_ok(goals@[i]@));
        }
    }
    Ok(MissionAllData { statement: st, roles: roles_out, goals: goals_out })
}

// ---------------------------------------------------------------------------
// Writing
// ---------------------------------------------------------------------------

/// Saves the one mission statement: its values `content, updated_at`, and
/// the statement as saved, under the id `default`.
pub fn mission_save_statement(content: String, now: i64) -> (r: (MissionStatement, Row))
    ensures
        r.0@ == (StatementView { id: "default"@, content: content@, updated_at: now }),
        r.1@ == seq![CellView::Text(content@), CellView::Integer(now)],
{
    let mut cells: Vec<CellValue> = Vec::new();
    cells.push(text_value(content.as_str()));
    cells.push(CellValue::Integer(now));
    let p = Row { cells };
    assert(p@ =~= seq![CellView::Text(content@), CellView::Integer(now)]);
    (MissionStatement { id: "default".to_string(), content, updated_at: now }, p)
}

/// The values a role insert binds: `id, name, icon, sort_order, created_at,
/// updated_at`, in the order roles are read.
pub open spec fn role_params(r: RoleView) -> Seq<CellView> {
    seq![
        CellView::Text(r.id),
        CellView::Text(r.name),
        CellView::Text(r.icon),
        CellView::Integer(r.sort_order as i64),
        CellView::Integer(r.created_at),
        CellView::Integer(r.updated_at),
    ]
}

/// A new role under `id`, created at `now`, and the values of its insert.
pub fn new_role(id: String, name: String, icon: String, sort_order: i32, now: i64) -> (r: (
    Role,
    Row,
))
    ensures
        r.0@ == (RoleView {
            id: id@,
            name: name@,
            icon: icon@,
            sort_order,
            created_at: now,
            updated_at: now,
        }),
        r.1@ == role_params(r.0@),
{
    let role = Role { id, name, icon, sort_order, created_at: now, updated_at: now };
    let mut cells: Vec<CellValue> = Vec::new();
    cells.push(text_value(role.id.as_str()));
    cells.push(text_value(role.name.as_str()));
    cells.push(text_value(role.icon.as_str()));
    cells.push(CellValue::Integer(role.sort_order as i64));
    cells.push(CellValue::Integer(now));
    cells.push(CellValue::Integer(now));
    let p = Row { cells };
    assert(p@ =~= role_params(role@));
    (role, p)
}

/// Creates a role under a fresh UUID at the current time.
pub fn mission_create_role(name: String, icon: String, sort_order: i32) -> (r: (Role, Row))
    ensures
        uuid_shaped(r.0@.id),
        millis_in_range(r.0@.created_at),
        r.0@.name == name@,
        r.0@.icon == icon@,
        r.0@.sort_order == sort_order,
        r.0@.created_at == r.0@.updated_at,
        r.1@ == role_params(r.0@),
{
    let id = uuid_v4_text();
    let now = now_ms();
    new_role(id, name, icon, sort_order, now)
}

/// The values a role update binds: `name, icon, updated_at, id`.
pub fn mission_update_role(id: &str, name: &str, icon: &str, now: i64) -> (r: Row)
    ensures
        r@ == seq![
            CellView::Text(name@),
            CellView::Text(icon@),
            CellView::Integer(now),
            CellView::Text(id@),
        ],
{
    let mut cells: Vec<CellValue> = Vec::new();
    cells.push(text_value(name));
    cells.push(text_value(icon));
    cells.push(CellValue::Integer(now));
    cells.push(text_value(id));
    let r = Row { cells };
    assert(r@ =~= seq![
        CellView::Text(name@),
        CellView::Text(icon@),
        CellView::Integer(now),
        CellView::Text(id@),
    ]);
    r
}

/// A goal as created: not started, long term, without dates.
pub open spec fn created_goal(
    id: Seq<char>,
    role_id: Seq<char>,
    title: Seq<char>,
    sort_order: i32,
    now: i64,
) -> GoalView {
    GoalView {
        id,
        role_id,
        title,
        status: "not_started"@,
        time_scope: "long"@,
        start_date: None,
        end_date: None,
        sort_order,
        created_at: now,
        updated_at: now,
    }
}

/// The values a goal insert binds: `id, role_id, title, sort_order,
/// created_at, updated_at` (its status and time scope are fixed in the
/// statement).
pub open spec fn goal_insert_params(g: GoalView) -> Seq<CellView> {
    seq![
        CellView::Text(g.id),
        CellView::Text(g.role_id),
        CellView::Text(g.title),
        CellView::Integer(g.sort_order as i64),
        CellView::Integer(g.created_at),
        CellView::Integer(g.updated_at),
    ]
}

pub fn new_goal(id: String, role_id: String, title: String, sort_order: i32, now: i64) -> (r: (
    Goal,
    Row,
))
    ensures
        r.0@ == created_goal(id@, role_id@, title@, sort_order, now),
        r.1@ == goal_insert_params(r.0@),
{
    let goal = Goal {
        id,
        role_id,
        title,
        status: "not_started".to_string(),
        time_scope: "long".to_string(),
        start_date: None,
        end_date: None,
        sort_order,
        created_at: now,
        updated_at: now,
    };
    let mut cells: Vec<CellValue> = Vec::new();
    cells.push(text_value(goal.id.as_str()));
    cells.push(text_value(goal.role_id.as_str()));
    cells.push(text_value(goal.title.as_str()));
    cells.push(CellValue::Integer(goal.sort_order as i64));
    cells.push(CellValue::Integer(now));
    cells.push(CellValue::Integer(now));
    let p = Row { cells };
    assert(p@ =~= goal_insert_params(goal@));
    (goal, p)
}

/// Creates a goal of a role under a fresh UUID at the current time.
pub fn mission_create_goal(role_id: String, title: String, sort_order: i32) -> (r: (Goal, Row))
    ensures
        exists|id: Seq<char>, now: i64|
            uuid_shaped(id) && millis_in_range(now) && r.0@ == #[trigger] created_goal(
                id,
                role_id@,
                title@,
                sort_order,
                now,
            ),
        r.1@ == goal_insert_params(r.0@),
{
    let id = uuid_v4_text();
    let now = now_ms();
    let ghost gid = id@;
    let r = new_goal(id, role_id, title, sort_order, now);
    assert(r.0@ == created_goal(gid, role_id@, title@, sort_order, now));
    r
}

/// The changes a goal update asks for: a missing field is left as it is; an
/// empty date clears it.
pub struct GoalUpdate {
    pub title: Option<String>,
    pub status: Option<String>,
    pub time_scope: Option<String>,
    pub start_date: Option<String>,
    pub end_date: Option<String>,
}

/// The values a goal update binds: `title, status, time_scope, start_date,
/// end_date` as given (NULL where missing), `updated_at`, and the goal's id.
pub open spec fn goal_update_params(u: GoalUpdate, now: i64, id: Seq<char>) -> Seq<CellView> {
    seq![
        opt_text_view(u.title.deep_view()),
        opt_text_view(u.status.deep_view()),
        opt_text_view(u.time_scope.deep_view()),
        opt_text_view(u.start_date.deep_view()),
        opt_text_view(u.end_date.deep_view()),
        CellView::Integer(now),
        CellView::Text(id),
    ]
}

pub fn mission_update_goal(id: &str, u: &GoalUpdate, now: i64) -> (r: Row)
    ensures
        r@ == goal_update_params(*u, now, id@),
{
    let mut cells: Vec<CellValue> = Vec::new();
    cells.push(opt_text_value(&u.title));
    cells.push(opt_text_value(&u.status));
    cells.push(opt_text_value(&u.time_scope));
    cells.push(opt_text_value(&u.start_date));
    cells.push(opt_text_value(&u.end_date));
    cells.push(CellValue::Integer(now));
    cells.push(text_value(id));
    let r = Row { cells };
    assert(r@ =~= goal_update_params(*u, now, id@));
    r
}

/// What a stored value becomes under `COALESCE(?, value)`.
pub open spec fn kept_unless_given(given: CellView, old: Seq<char>) -> Seq<char> {
    match given {
        CellView::Text(s) => s,
        _ => old,
    }
}

/// What a stored date becomes under `CASE WHEN ? IS NULL THEN date WHEN ? =
/// '' THEN NULL ELSE ? END`.
pub open spec fn date_after(given: CellView, old: Option<Seq<char>>) -> Option<Seq<char>> {
    match given {
        CellView::Text(s) => if s.len() == 0 {
            None
        } else {
            Some(s)
        },
        _ => old,
    }
}

/// A goal after the update statement ran with `params` at its id.
pub open spec fn goal_after_update(g: GoalView, params: Seq<CellView>) -> GoalView {
    GoalView {
        title: kept_unless_given(params[0], g.title),
        status: kept_unless_given(params[1], g.status),
        time_scope: kept_unless_given(params[2], g.time_scope),
        start_date: date_after(params[3], g.start_date),
        end_date: date_after(params[4], g.end_date),
        updated_at: match params[5] {
            CellView::Integer(n) => n,
            _ => g.updated_at,
        },
        ..g
    }
}

/// A partial goal update leaves every field it does not name as it was,
/// clears a date given as empty text, and sets every other given field.
pub proof fn law_goal_partial_update(g: GoalView, u: GoalUpdate, now: i64, id: Seq<char>)
    ensures
        ({
            let after = goal_after_update(g, goal_update_params(u, now, id));
            &&& after.title == match u.title {
                Some(t) => t@,
                None => g.title,
            }
            &&& after.status == match u.status {
                Some(t) => t@,
                None => g.status,
            }
            &&& after.time_scope == match u.time_scope {
                Some(t) => t@,
                None => g.time_scope,
            }
            &&& after.start_date == match u.start_date {
                Some(d) => if d@.len() == 0 {
                    None
                } else {
                    Some(d@)
                },
                None => g.start_date,
            }
            &&& after.end_date == match u.end_date {
                Some(d) => if d@.len() == 0 {
                    None
                } else {
                    Some(d@)
                },
                None => g.end_date,
            }
            &&& after.updated_at == now
            &&& after.id == g.id && after.role_id == g.role_id && after.sort_order == g.sort_order
            &&& after.created_at == g.created_at
        }),
{
}

/// What a load gives back of a created role: the role itself.
pub proof fn law_role_round_trip(r: RoleView)
    ensures
        role_row_ok(role_params(r)),
        typed_text(cell_at(role_params(r), 0)) is Some,
        read_role(role_params(r)) == r,
{
    let row = role_params(r);
    assert(cell_at(row, 0) == Some(CellView::Text(r.id)));
    assert(cell_at(row, 1) == Some(CellView::Text(r.name)));
    assert(cell_at(row, 2) == Some(CellView::Text(r.icon)));
    assert(cell_at(row, 3) == Some(CellView::Integer(r.sort_order as i64)));
    assert(cell_at(row, 4) == Some(CellView::Integer(r.created_at)));
    assert(cell_at(row, 5) == Some(CellView::Integer(r.updated_at)));
    assert((r.sort_order as i64) as i32 == r.sort_order);
}

// ---------------------------------------------------------------------------
// Deleting and reordering
// ---------------------------------------------------------------------------

/// Deleting a role: its goals are marked deleted, its tasks lose it, and it
/// is marked deleted, all at `now_ms`.
pub fn mission_delete_role(id: &str, now_ms: i64) -> (r: Vec<Statement>)
    ensures
        statements_view(r@) == seq![
            (SOFT_DELETE_GOALS_OF_ROLE@, soft_delete_row(CellView::Integer(now_ms), id@)),
            (UNASSIGN_TASKS_OF_ROLE@, seq![CellView::Text(id@)]),
            (SOFT_DELETE_ROLE@, soft_delete_row(CellView::Integer(now_ms), id@)),
        ],
{
    let mut only_id: Vec<CellValue> = Vec::new();
    only_id.push(text_value(id));
    let id_row = Row { cells: only_id };
    assert(id_row@ =~= seq![CellView::Text(id@)]);
    let mut r: Vec<Statement> = Vec::new();
    r.push(statement(SOFT_DELETE_GOALS_OF_ROLE, soft_delete_params(&CellValue::Integer(now_ms), id)));
    r.push(statement(UNASSIGN_TASKS_OF_ROLE, id_row));
    r.push(statement(SOFT_DELETE_ROLE, soft_delete_params(&CellValue::Integer(now_ms), id)));
    assert(statements_view(r@) =~= seq![
        (SOFT_DELETE_GOALS_OF_ROLE@, soft_delete_row(CellView::Integer(now_ms), id@)),
        (UNASSIGN_TASKS_OF_ROLE@, seq![CellView::Text(id@)]),
        (SOFT_DELETE_ROLE@, soft_delete_row(CellView::Integer(now_ms), id@)),
    ]);
    r
}

/// Deleting a goal: it is marked deleted at `now_ms`.
pub fn mission_delete_goal(id: &str, now_ms: i64) -> (r: Statement)
    ensures
        r.sql@ == SOFT_DELETE_GOAL@,
        r.params@ == soft_delete_row(CellView::Integer(now_ms), id@),
{
    statement(SOFT_DELETE_GOAL, soft_delete_params(&CellValue::Integer(now_ms), id))
}

/// Reordering roles: each takes its new place, stamped `now_ms`.
pub fn mission_reorder_roles(items: &Vec<(String, i32)>, now_ms: i64) -> (r: Vec<Statement>)
    ensures
        r@.len() == items@.len(),
        forall|i: int|
            0 <= i < items@.len() ==> #[trigger] statements_view(r@)[i] == (
                REORDER_ROLE@,
                reorder_row(items@[i].0@, items@[i].1, CellView::Integer(now_ms), None),
            ),
{
    reorder_statements(REORDER_ROLE, items, &CellValue::Integer(now_ms), None)
}

/// Reordering the goals of a role: each goal of that role takes its new
/// place, stamped `now_ms`.
pub fn mission_reorder_goals(role_id: &str, items: &Vec<(String, i32)>, now_ms: i64) -> (r: Vec<
    Statement,
>)
    ensures
        r@.len() == items@.len(),
        forall|i: int|
            0 <= i < items@.len() ==> #[trigger] statements_view(r@)[i] == (
                REORDER_GOAL@,
                reorder_row(items@[i].0@, items@[i].1, CellView::Integer(now_ms), Some(role_id@)),
            ),
{
    reorder_statements(REORDER_GOAL, items, &CellValue::Integer(now_ms), Some(role_id))
}


/// What the mission load gives back of a saved statement: the row the
/// database holds under the id `default` reads as the statement saved.
pub proof fn law_statement_round_trip(content: String, now: i64)
    ensures
        read_statement(seq![CellView::Text("default"@), CellView::Text(content@), CellView::Integer(now)])
            == (StatementView { id: "default"@, content: content@, updated_at: now }),
{
    let row = seq![CellView::Text("default"@), CellView::Text(content@), CellView::Integer(now)];
    assert(cell_at(row, 0) == Some(CellView::Text("default"@)));
    assert(cell_at(row, 1) == Some(CellView::Text(content@)));
    assert(cell_at(row, 2) == Some(CellView::Integer(now)));
}

/// The columns of a role, in the order its query selects them and its
/// upsert names them (the upsert may add `updated_at`).
pub open spec fn role_columns() -> Seq<Seq<char>> {
    seq!["id"@, "name"@, "icon"@, "sort_order"@, "created_at"@, "updated_at"@]
}

proof fn reveal_role_columns()
    ensures
        role_columns() == seq![seq!['i', 'd'], seq!['n', 'a', 'm', 'e'], seq!['i', 'c', 'o', 'n'], seq!['s', 'o', 'r', 't', '_', 'o', 'r', 'd', 'e', 'r'], seq!['c', 'r', 'e', 'a', 't', 'e', 'd', '_', 'a', 't'], seq!['u', 'p', 'd', 'a', 't', 'e', 'd', '_', 'a', 't']],
{
    reveal_strlit("id");
    reveal_strlit("name");
    reveal_strlit("icon");
    reveal_strlit("sort_order");
    reveal_strlit("created_at");
    reveal_strlit("updated_at");
    assert(role_columns() =~~= seq![seq!['i', 'd'], seq!['n', 'a', 'm', 'e'], seq!['i', 'c', 'o', 'n'], seq!['s', 'o', 'r', 't', '_', 'o', 'r', 'd', 'e', 'r'], seq!['c', 'r', 'e', 'a', 't', 'e', 'd', '_', 'a', 't'], seq!['u', 'p', 'd', 'a', 't', 'e', 'd', '_', 'a', 't']]);
}

/// The role query and upsert name the columns `role_columns` lists, in
/// that order, and the upsert binds `?k` to its `k`-th column.
pub proof fn law_role_queries_name_the_columns()
    ensures
        SELECT_ROLES@ == "SELECT "@ + comma_list(role_columns()) + " FROM mission_roles WHERE deleted_at IS NULL ORDER BY sort_order"@,
        ("INSERT INTO mission_roles ("@ + comma_list(role_columns())
            + ") VALUES (?1, ?2, ?3, ?4, ?5, ?6)"@).is_prefix_of(INSERT_ROLE@),
{
    reveal_with_fuel(comma_list, 9);
    reveal_strlit("SELECT id, name, icon, sort_order, created_at, updated_at FROM mission_roles WHERE deleted_at IS NULL ORDER BY sort_order");
    reveal_strlit("INSERT INTO mission_roles (id, name, icon, sort_order, created_at, updated_at) VALUES (?1, ?2, ?3, ?4, ?5, ?6)");
    reveal_strlit("SELECT ");
    reveal_strlit(" FROM mission_roles WHERE deleted_at IS NULL ORDER BY sort_order");
    reveal_strlit("INSERT INTO mission_roles (");
    reveal_strlit(") VALUES (?1, ?2, ?3, ?4, ?5, ?6)");
    reveal_strlit(", ");
    reveal_strlit("updated_at");
    reveal_role_columns();
    assert(SELECT_ROLES@ =~= "SELECT "@ + comma_list(role_columns()) + " FROM mission_roles WHERE deleted_at IS NULL ORDER BY sort_order"@);
    let pre = "INSERT INTO mission_roles ("@ + comma_list(role_columns())
        + ") VALUES (?1, ?2, ?3, ?4, ?5, ?6)"@;
    assert(pre =~= INSERT_ROLE@.take(pre.len() as int));
}

/// Each field of a role is read from the column its query names for it,
/// and its upsert binds it where the upsert names that column.
pub proof fn law_role_fields_follow_column_names(row: Seq<CellView>, r: RoleView)
    ensures
        role_columns()[0] == "id"@ && read_role(row).id == text_or_default(row, 0)
            && role_params(r)[0] == CellView::Text(r.id),
        role_columns()[1] == "name"@ && read_role(row).name == text_or_default(row, 1)
            && role_params(r)[1] == CellView::Text(r.name),
        role_columns()[2] == "icon"@ && read_role(row).icon == text_or_default(row, 2)
            && role_params(r)[2] == CellView::Text(r.icon),
        role_columns()[3] == "sort_order"@ && read_role(row).sort_order == i32_or_zero(row, 3)
            && role_params(r)[3] == CellView::Integer(r.sort_order as i64),
        role_columns()[4] == "created_at"@ && read_role(row).created_at == int_or_zero(row, 4)
            && role_params(r)[4] == CellView::Integer(r.created_at),
        role_columns()[5] == "updated_at"@ && read_role(row).updated_at == int_or_zero(row, 5)
            && role_params(r)[5] == CellView::Integer(r.updated_at),
{
    reveal_role_columns();
    reveal_strlit("id");
    reveal_strlit("name");
    reveal_strlit("icon");
    reveal_strlit("sort_order");
    reveal_strlit("created_at");
    reveal_strlit("updated_at");
}

/// The columns of a goal, in the order the goal query selects them.
pub open spec fn goal_columns() -> Seq<Seq<char>> {
    seq!["id"@, "role_id"@, "title"@, "status"@, "time_scope"@, "start_date"@, "end_date"@, "sort_order"@, "created_at"@, "updated_at"@]
}

proof fn reveal_goal_columns()
    ensures
        goal_columns() == seq![seq!['i', 'd'], seq!['r', 'o', 'l', 'e', '_', 'i', 'd'], seq!['t', 'i', 't', 'l', 'e'], seq!['s', 't', 'a', 't', 'u', 's'], seq!['t', 'i', 'm', 'e', '_', 's', 'c', 'o', 'p', 'e'], seq!['s', 't', 'a', 'r', 't', '_', 'd', 'a', 't', 'e'], seq!['e', 'n', 'd', '_', 'd', 'a', 't', 'e'], seq!['s', 'o', 'r', 't', '_', 'o', 'r', 'd', 'e', 'r'], seq!['c', 'r', 'e', 'a', 't', 'e', 'd', '_', 'a', 't'], seq!['u', 'p', 'd', 'a', 't', 'e', 'd', '_', 'a', 't']],
{
    reveal_strlit("id");
    reveal_strlit("role_id");
    reveal_strlit("title");
    reveal_strlit("status");
    reveal_strlit("time_scope");
    reveal_strlit("start_date");
    reveal_strlit("end_date");
    reveal_strlit("sort_order");
    reveal_strlit("created_at");
    reveal_strlit("updated_at");
    assert(goal_columns() =~~= seq![seq!['i', 'd'], seq!['r', 'o', 'l', 'e', '_', 'i', 'd'], seq!['t', 'i', 't', 'l', 'e'], seq!['s', 't', 'a', 't', 'u', 's'], seq!['t', 'i', 'm', 'e', '_', 's', 'c', 'o', 'p', 'e'], seq!['s', 't', 'a', 'r', 't', '_', 'd', 'a', 't', 'e'], seq!['e', 'n', 'd', '_', 'd', 'a', 't', 'e'], seq!['s', 'o', 'r', 't', '_', 'o', 'r', 'd', 'e', 'r'], seq!['c', 'r', 'e', 'a', 't', 'e', 'd', '_', 'a', 't'], seq!['u', 'p', 'd', 'a', 't', 'e', 'd', '_', 'a', 't']]);
}

/// The goal query names the columns `goal_columns` lists, in that order,
/// and each field of a goal is read from the column named for it.
pub proof fn law_goal_fields_follow_column_names(row: Seq<CellView>)
    ensures
        SELECT_GOALS@ == "SELECT "@ + comma_list(goal_columns()) + " FROM mission_goals WHERE deleted_at IS NULL ORDER BY sort_order"@,
        goal_columns()[0] == "id"@ && read_goal(row).id == text_or_default(row, 0),
        goal_columns()[1] == "role_id"@ && read_goal(row).role_id == text_or_default(row, 1),
        goal_columns()[2] == "title"@ && read_goal(row).title == text_or_default(row, 2),
        goal_columns()[3] == "status"@ && read_goal(row).status == text_or_default(row, 3),
        goal_columns()[4] == "time_scope"@ && read_goal(row).time_scope == text_or_default(row, 4),
        goal_columns()[5] == "start_date"@ && read_goal(row).start_date == typed_text(cell_at(row, 5)),
        goal_columns()[6] == "end_date"@ && read_goal(row).end_date == typed_text(cell_at(row, 6)),
        goal_columns()[7] == "sort_order"@ && read_goal(row).sort_order == i32_or_zero(row, 7),
        goal_columns()[8] == "created_at"@ && read_goal(row).created_at == int_or_zero(row, 8),
        goal_columns()[9] == "updated_at"@ && read_goal(row).updated_at == int_or_zero(row, 9),
{
    reveal_with_fuel(comma_list, 13);
    reveal_strlit("SELECT id, role_id, title, status, time_scope, start_date, end_date, sort_order, created_at, updated_at FROM mission_goals WHERE deleted_at IS NULL ORDER BY sort_order");
    reveal_strlit("SELECT ");
    reveal_strlit(" FROM mission_goals WHERE deleted_at IS NULL ORDER BY sort_order");
    reveal_strlit(", ");
    reveal_goal_columns();
    assert(SELECT_GOALS@ =~= "SELECT "@ + comma_list(goal_columns()) + " FROM mission_goals WHERE deleted_at IS NULL ORDER BY sort_order"@);
}

} // verus!
