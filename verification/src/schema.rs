use vstd::prelude::*;
use crate::text::{append_str, push_char};

verus! {

// ---------------------------------------------------------------------------
// Connection setup: pragmas, de-duplication and unique indexes, the switch of
// stored timestamps to UNIX milliseconds, and defaults for NULL fields.
// Every statement is idempotent; a failure is ignored, except that a failed
// timestamp switch is reported.
// ---------------------------------------------------------------------------

/// Write-ahead logging; the statement returns a row.
pub const SQL_JOURNAL_WAL: &'static str = "PRAGMA journal_mode=WAL";

/// Wait up to five seconds for a lock instead of failing.
pub const SQL_BUSY_TIMEOUT: &'static str = "PRAGMA busy_timeout=5000";

/// Normal durability.
pub const SQL_SYNCHRONOUS: &'static str = "PRAGMA synchronous=NORMAL";

/// Enforce foreign keys.
pub const SQL_FOREIGN_KEYS: &'static str = "PRAGMA foreign_keys=ON";

/// Keep one check-in per habit and day: the one not deleted and updated last.
pub const SQL_DEDUP_CHECKINS: &'static str = "DELETE FROM habit_checkins WHERE rowid NOT IN (
                SELECT rowid FROM (
                    SELECT rowid, ROW_NUMBER() OVER (
                        PARTITION BY habit_id, date
                        ORDER BY (deleted_at IS NULL) DESC, updated_at DESC, rowid DESC
                    ) AS rn FROM habit_checkins
                ) WHERE rn = 1
            )";

/// One check-in per habit and day, from now on.
pub const SQL_INDEX_CHECKINS: &'static str = "CREATE UNIQUE INDEX IF NOT EXISTS idx_habit_checkins_habit_date ON habit_checkins(habit_id, date)";

/// The daily review table.
pub const SQL_CREATE_REVIEWS: &'static str = "CREATE TABLE IF NOT EXISTS daily_reviews (
                id TEXT PRIMARY KEY,
                date TEXT NOT NULL,
                content TEXT,
                rating INTEGER,
                created_at TEXT,
                updated_at TEXT,
                deleted_at TEXT
            )";

/// Restore reviews that were marked deleted but have content.
pub const SQL_RESTORE_REVIEWS: &'static str = "UPDATE daily_reviews SET deleted_at = NULL WHERE deleted_at IS NOT NULL AND length(trim(content)) > 0 AND content != '{}' AND content != '<p></p>'";

/// Keep one review per day: the one not deleted and updated last.
pub const SQL_DEDUP_REVIEWS: &'static str = "DELETE FROM daily_reviews WHERE rowid NOT IN (
                SELECT rowid FROM (
                    SELECT rowid, ROW_NUMBER() OVER (
                        PARTITION BY date
                        ORDER BY (deleted_at IS NULL) DESC, updated_at DESC, rowid DESC
                    ) AS rn FROM daily_reviews
                ) WHERE rn = 1
            )";

/// One review per day, from now on.
pub const SQL_INDEX_REVIEWS: &'static str = "CREATE UNIQUE INDEX IF NOT EXISTS idx_daily_reviews_date ON daily_reviews(date)";

/// One statement of the setup.
#[derive(Debug, Clone, PartialEq)]
pub struct SetupStep {
    pub sql: String,
    /// Run as a query (the statement returns rows).
    pub is_query: bool,
    /// `table.column` of a timestamp switch, whose failure is reported.
    pub failure_label: Option<String>,
}

pub struct SetupStepView {
    pub sql: Seq<char>,
    pub is_query: bool,
    pub failure_label: Option<Seq<char>>,
}

impl View for SetupStep {
    type V = SetupStepView;

    open spec fn view(&self) -> SetupStepView {
        SetupStepView {
            sql: self.sql@,
            is_query: self.is_query,
            failure_label: self.failure_label.deep_view(),
        }
    }
}

pub open spec fn steps_view(v: Seq<SetupStep>) -> Seq<SetupStepView> {
    v.map_values(|s: SetupStep| s@)
}

pub open spec fn plain_step(sql: Seq<char>, is_query: bool) -> SetupStepView {
    SetupStepView { sql, is_query, failure_label: None }
}

fn plain(sql: &str, is_query: bool) -> (s: SetupStep)
    ensures
        s@ == plain_step(sql@, is_query),
{
    SetupStep { sql: sql.to_string(), is_query, failure_label: None }
}

/// The pragmas and the de-duplication, index and table statements, in order.
pub open spec fn fixed_steps() -> Seq<SetupStepView> {
    seq![
        plain_step(SQL_JOURNAL_WAL@, true),
        plain_step(SQL_BUSY_TIMEOUT@, false),
        plain_step(SQL_SYNCHRONOUS@, false),
        plain_step(SQL_FOREIGN_KEYS@, false),
        plain_step(SQL_DEDUP_CHECKINS@, false),
        plain_step(SQL_INDEX_CHECKINS@, false),
        plain_step(SQL_CREATE_REVIEWS@, false),
        plain_step(SQL_RESTORE_REVIEWS@, false),
        plain_step(SQL_DEDUP_REVIEWS@, false),
        plain_step(SQL_INDEX_REVIEWS@, false),
    ]
}

/// The timestamp columns switched to UNIX milliseconds, as `(table, column)`.
pub open spec fn ms_columns() -> Seq<(Seq<char>, Seq<char>)> {
    seq![
        ("daily_reviews"@, "created_at"@),
        ("daily_reviews"@, "updated_at"@),
        ("mission_roles"@, "created_at"@),
        ("mission_roles"@, "updated_at"@),
        ("mission_goals"@, "created_at"@),
        ("mission_goals"@, "updated_at"@),
        ("mission_statement"@, "updated_at"@),
        ("time_management_tasks"@, "created_at"@),
        ("time_management_tasks"@, "completed_at"@),
        ("list_notes"@, "created_at"@),
        ("list_notes"@, "updated_at"@),
    ]
}

/// The switch of one timestamp column: ISO text (`YYYY-MM-DD HH:MM:SS.mmm`,
/// UTC) becomes its milliseconds, digit text is cast, other values become
/// NULL; only text values are touched, so running it again does nothing.
pub open spec fn ms_migration_sql(table: Seq<char>, col: Seq<char>) -> Seq<char> {
    "UPDATE "@ + table + " SET "@ + col + " = CASE WHEN "@ + col
        + " LIKE '____-__-__%' THEN CAST(strftime('%s', "@ + col
        + ") AS INTEGER) * 1000 + CAST(COALESCE(NULLIF(substr("@ + col
        + ", 21, 3), ''), '0') AS INTEGER) WHEN "@ + col + " IS NOT NULL AND "@ + col
        + " != '' THEN CAST("@ + col + " AS INTEGER) ELSE NULL END WHERE typeof("@ + col
        + ") = 'text'"@
}

pub open spec fn ms_step(p: (Seq<char>, Seq<char>)) -> SetupStepView {
    SetupStepView {
        sql: ms_migration_sql(p.0, p.1),
        is_query: false,
        failure_label: Some(p.0 + "."@ + p.1),
    }
}

/// The statements that give NULL or empty fields their defaults.
pub open spec fn cleanup_sql() -> Seq<Seq<char>> {
    seq![
        "UPDATE mission_roles SET icon = '🎯' WHERE icon IS NULL OR icon = ''"@,
        "UPDATE mission_roles SET sort_order = 0 WHERE sort_order IS NULL"@,
        "UPDATE mission_goals SET status = 'not_started' WHERE status IS NULL OR status = ''"@,
        "UPDATE mission_goals SET time_scope = 'long' WHERE time_scope IS NULL OR time_scope = ''"@,
        "UPDATE mission_goals SET sort_order = 0 WHERE sort_order IS NULL"@,
        "UPDATE time_management_tasks SET quadrant = 'q1' WHERE quadrant IS NULL OR quadrant = ''"@,
        "UPDATE time_management_tasks SET completed = 0 WHERE completed IS NULL"@,
        "UPDATE habits SET auto_popup_log = 0 WHERE auto_popup_log IS NULL"@,
        "UPDATE habit_checkins SET completed = 0 WHERE completed IS NULL"@,
        "UPDATE daily_reviews SET rating = 0 WHERE rating IS NULL"@,
    ]
}

/// The whole setup, in the order it runs.
pub open spec fn setup_script() -> Seq<SetupStepView> {
    fixed_steps() + ms_columns().map_values(|p: (Seq<char>, Seq<char>)| ms_step(p))
        + cleanup_sql().map_values(|s: Seq<char>| plain_step(s, false))
}

fn fixed_step_list() -> (v: Vec<SetupStep>)
    ensures
        steps_view(v@) == fixed_steps(),
{
    let mut v: Vec<SetupStep> = Vec::new();
    v.push(plain(SQL_JOURNAL_WAL, true));
    v.push(plain(SQL_BUSY_TIMEOUT, false));
    v.push(plain(SQL_SYNCHRONOUS, false));
    v.push(plain(SQL_FOREIGN_KEYS, false));
    v.push(plain(SQL_DEDUP_CHECKINS, false));
    v.push(plain(SQL_INDEX_CHECKINS, false));
    v.push(plain(SQL_CREATE_REVIEWS, false));
    v.push(plain(SQL_RESTORE_REVIEWS, false));
    v.push(plain(SQL_DEDUP_REVIEWS, false));
    v.push(plain(SQL_INDEX_REVIEWS, false));
    assert(steps_view(v@) =~= fixed_steps());
    v
}

fn ms_column_list() -> (cols: Vec<(&'static str, &'static str)>)
    ensures
        cols@.map_values(|p: (&'static str, &'static str)| (p.0@, p.1@)) == ms_columns(),
{
    let mut cols: Vec<(&'static str, &'static str)> = Vec::new();
    cols.push(("daily_reviews", "created_at"));
    cols.push(("daily_reviews", "updated_at"));
    cols.push(("mission_roles", "created_at"));
    cols.push(("mission_roles", "updated_at"));
    cols.push(("mission_goals", "created_at"));
    cols.push(("mission_goals", "updated_at"));
    cols.push(("mission_statement", "updated_at"));
    cols.push(("time_management_tasks", "created_at"));
    cols.push(("time_management_tasks", "completed_at"));
    cols.push(("list_notes", "created_at"));
    cols.push(("list_notes", "updated_at"));
    assert(cols@.map_values(|p: (&'static str, &'static str)| (p.0@, p.1@)) =~= ms_columns());
    cols
}

fn cleanup_list() -> (v: Vec<&'static str>)
    ensures
        v@.map_values(|s: &'static str| s@) == cleanup_sql(),
{
    let mut v: Vec<&'static str> = Vec::new();
    v.push("UPDATE mission_roles SET icon = '🎯' WHERE icon IS NULL OR icon = ''");
    v.push("UPDATE mission_roles SET sort_order = 0 WHERE sort_order IS NULL");
    v.push("UPDATE mission_goals SET status = 'not_started' WHERE status IS NULL OR status = ''");
    v.push("UPDATE mission_goals SET time_scope = 'long' WHERE time_scope IS NULL OR time_scope = ''");
    v.push("UPDATE mission_goals SET sort_order = 0 WHERE sort_order IS NULL");
    v.push("UPDATE time_management_tasks SET quadrant = 'q1' WHERE quadrant IS NULL OR quadrant = ''");
    v.push("UPDATE time_management_tasks SET completed = 0 WHERE completed IS NULL");
    v.push("UPDATE habits SET auto_popup_log = 0 WHERE auto_popup_log IS NULL");
    v.push("UPDATE habit_checkins SET completed = 0 WHERE completed IS NULL");
    v.push("UPDATE daily_reviews SET rating = 0 WHERE rating IS NULL");
    assert(v@.map_values(|s: &'static str| s@) =~= cleanup_sql());
    v
}

/// The timestamp switch of `table.col`.
pub fn ms_migration_statement(table: &str, col: &str) -> (r: String)
    ensures
        r@ == ms_migration_sql(table@, col@),
{
    let mut s = String::new();
    append_str(&mut s, "UPDATE ");
    append_str(&mut s, table);
    append_str(&mut s, " SET ");
    append_str(&mut s, col);
    append_str(&mut s, " = CASE WHEN ");
    append_str(&mut s, col);
    append_str(&mut s, " LIKE '____-__-__%' THEN CAST(strftime('%s', ");
    append_str(&mut s, col);
    append_str(&mut s, ") AS INTEGER) * 1000 + CAST(COALESCE(NULLIF(substr(");
    append_str(&mut s, col);
    append_str(&mut s, ", 21, 3), ''), '0') AS INTEGER) WHEN ");
    append_str(&mut s, col);
    append_str(&mut s, " IS NOT NULL AND ");
    append_str(&mut s, col);
    append_str(&mut s, " != '' THEN CAST(");
    append_str(&mut s, col);
    append_str(&mut s, " AS INTEGER) ELSE NULL END WHERE typeof(");
    append_str(&mut s, col);
    append_str(&mut s, ") = 'text'");
    s
}

/// The statements the database is set up with, in the order they run.
pub fn ensure_local_tables() -> (v: Vec<SetupStep>)
    ensures
        steps_view(v@) == setup_script(),
{
    let mut v = fixed_step_list();
    let ghost fixed = steps_view(v@);
    let cols = ms_column_list();
    let mut i: usize = 0;
    while i < cols.len()
        invariant
            i <= cols@.len(),
            fixed == fixed_steps(),
            cols@.map_values(|p: (&'static str, &'static str)| (p.0@, p.1@)) == ms_columns(),
            steps_view(v@) == fixed + ms_columns().take(i as int).map_values(
                |p: (Seq<char>, Seq<char>)| ms_step(p),
            ),
        decreases cols.len() - i,
    {
        let (table, col) = cols[i];
        assert(ms_columns()[i as int] == (table@, col@));
        let mut label = String::new();
        append_str(&mut label, table);
        push_char(&mut label, '.');
        append_str(&mut label, col);
        proof {
            reveal_strlit(".");
            assert(label@ =~= table@ + "."@ + col@);
        }
        let ghost before = steps_view(v@);
        v.push(SetupStep {
            sql: ms_migration_statement(table, col),
            is_query: false,
            failure_label: Some(label),
        });
        proof {
            assert(steps_view(v@) =~= before.push(ms_step((table@, col@))));
            assert(ms_columns().take(i + 1).map_values(|p: (Seq<char>, Seq<char>)| ms_step(p))
                =~= ms_columns().take(i as int).map_values(|p: (Seq<char>, Seq<char>)| ms_step(p)).push(
                ms_step((table@, col@)),
            ));
        }
        i = i + 1;
    }
    assert(ms_columns().take(cols@.len() as int) =~= ms_columns());
    let ghost with_ms = steps_view(v@);
    let cleanups = cleanup_list();
    let mut k: usize = 0;
    while k < cleanups.len()
        invariant
            k <= cleanups@.len(),
            cleanups@.map_values(|s: &'static str| s@) == cleanup_sql(),
            steps_view(v@) == with_ms + cleanup_sql().take(k as int).map_values(
                |s: Seq<char>| plain_step(s, false),
            ),
        decreases cleanups.len() - k,
    {
        let sql = cleanups[k];
        assert(cleanup_sql()[k as int] == sql@);
        let ghost before = steps_view(v@);
        v.push(plain(sql, false));
        proof {
            assert(steps_view(v@) =~= before.push(plain_step(sql@, false)));
            assert(cleanup_sql().take(k + 1).map_values(|s: Seq<char>| plain_step(s, false))
                =~= cleanup_sql().take(k as int).map_values(|s: Seq<char>| plain_step(s, false)).push(
                plain_step(sql@, false),
            ));
        }
        k = k + 1;
    }
    assert(cleanup_sql().take(cleanups@.len() as int) =~= cleanup_sql());
    assert(steps_view(v@) =~= setup_script());
    v
}

// ---------------------------------------------------------------------------
// Versioned migrations: each step runs once, and is recorded when it has.
// ---------------------------------------------------------------------------

/// One versioned migration.
#[derive(Debug, Clone, PartialEq)]
pub struct MigrationStep {
    pub version: i32,
    pub name: &'static str,
    pub sql: &'static str,
}

pub struct MigrationStepView {
    pub version: i32,
    pub name: Seq<char>,
    pub sql: Seq<char>,
}

impl View for MigrationStep {
    type V = MigrationStepView;

    open spec fn view(&self) -> MigrationStepView {
        MigrationStepView { version: self.version, name: self.name@, sql: self.sql@ }
    }
}

pub open spec fn migrations_view(v: Seq<MigrationStep>) -> Seq<MigrationStepView> {
    v.map_values(|m: MigrationStep| m@)
}

/// The migrations, in the order they run.
pub open spec fn migration_table() -> Seq<MigrationStepView> {
    seq![
        MigrationStepView { version: 1, name: "habits_frequency"@, sql: "ALTER TABLE habits ADD COLUMN frequency VARCHAR(50) NULL"@ },
        MigrationStepView { version: 2, name: "habits_goal"@, sql: "ALTER TABLE habits ADD COLUMN goal VARCHAR(50) NULL"@ },
        MigrationStepView { version: 3, name: "habits_start_date"@, sql: "ALTER TABLE habits ADD COLUMN start_date VARCHAR(20) NULL"@ },
        MigrationStepView { version: 4, name: "habits_duration"@, sql: "ALTER TABLE habits ADD COLUMN duration VARCHAR(50) NULL"@ },
        MigrationStepView { version: 5, name: "habits_category"@, sql: "ALTER TABLE habits ADD COLUMN category VARCHAR(50) NULL"@ },
        MigrationStepView { version: 6, name: "habits_reminder"@, sql: "ALTER TABLE habits ADD COLUMN reminder VARCHAR(50) NULL"@ },
        MigrationStepView { version: 7, name: "habits_auto_popup"@, sql: "ALTER TABLE habits ADD COLUMN auto_popup_log TINYINT(1) NOT NULL DEFAULT 0"@ },
        MigrationStepView { version: 8, name: "tm_reminder"@, sql: "ALTER TABLE time_management_tasks ADD COLUMN reminder VARCHAR(100) NULL"@ },
        MigrationStepView { version: 9, name: "pomodoro_fav_updated_at"@, sql: "ALTER TABLE pomodoro_favorites ADD COLUMN updated_at DATETIME(3) NOT NULL DEFAULT CURRENT_TIMESTAMP(3)"@ },
        MigrationStepView { version: 10, name: "tm_deleted_at"@, sql: "ALTER TABLE time_management_tasks ADD COLUMN deleted_at DATETIME(3) NULL"@ },
        MigrationStepView { version: 11, name: "daily_reviews_deleted_at"@, sql: "ALTER TABLE daily_reviews ADD COLUMN deleted_at DATETIME(3) NULL"@ },
        MigrationStepView { version: 12, name: "list_note_groups_deleted_at"@, sql: "ALTER TABLE list_note_groups ADD COLUMN deleted_at DATETIME(3) NULL"@ },
        MigrationStepView { version: 13, name: "list_templates_deleted_at"@, sql: "ALTER TABLE list_templates ADD COLUMN deleted_at DATETIME(3) NULL"@ },
        MigrationStepView { version: 14, name: "mission_statement_deleted_at"@, sql: "ALTER TABLE mission_statement ADD COLUMN deleted_at DATETIME(3) NULL"@ },
        MigrationStepView { version: 15, name: "mission_roles_deleted_at"@, sql: "ALTER TABLE mission_roles ADD COLUMN deleted_at DATETIME(3) NULL"@ },
        MigrationStepView { version: 16, name: "mission_goals_deleted_at"@, sql: "ALTER TABLE mission_goals ADD COLUMN deleted_at DATETIME(3) NULL"@ },
        MigrationStepView { version: 17, name: "habits_deleted_at"@, sql: "ALTER TABLE habits ADD COLUMN deleted_at DATETIME(3) NULL"@ },
        MigrationStepView { version: 18, name: "habit_checkins_deleted_at"@, sql: "ALTER TABLE habit_checkins ADD COLUMN deleted_at DATETIME(3) NULL"@ },
        MigrationStepView { version: 19, name: "pomodoro_records_updated_at"@, sql: "ALTER TABLE pomodoro_records ADD COLUMN updated_at DATETIME(3) NOT NULL DEFAULT CURRENT_TIMESTAMP(3)"@ },
        MigrationStepView { version: 20, name: "pomodoro_records_deleted_at"@, sql: "ALTER TABLE pomodoro_records ADD COLUMN deleted_at DATETIME(3) NULL"@ },
        MigrationStepView { version: 21, name: "pomodoro_favorites_deleted_at"@, sql: "ALTER TABLE pomodoro_favorites ADD COLUMN deleted_at DATETIME(3) NULL"@ },
        MigrationStepView { version: 22, name: "cleanup_orphan_notes"@, sql: "DELETE FROM list_notes WHERE list_id NOT IN (SELECT id FROM list_lists)"@ },
        MigrationStepView { version: 23, name: "cleanup_orphan_goals"@, sql: "DELETE FROM mission_goals WHERE role_id NOT IN (SELECT id FROM mission_roles)"@ },
        MigrationStepView { version: 24, name: "cleanup_orphan_checkins"@, sql: "DELETE FROM habit_checkins WHERE habit_id NOT IN (SELECT id FROM habits)"@ },
        MigrationStepView { version: 25, name: "cleanup_orphan_groups"@, sql: "DELETE FROM list_note_groups WHERE list_id NOT IN (SELECT id FROM list_lists)"@ },
        MigrationStepView { version: 26, name: "cleanup_orphan_note_groups_ref"@, sql: "UPDATE list_notes SET group_id = NULL WHERE group_id IS NOT NULL AND group_id NOT IN (SELECT id FROM list_note_groups)"@ },
    ]
}

pub fn common_migrations() -> (v: Vec<MigrationStep>)
    ensures
        migrations_view(v@) == migration_table(),
{
    let mut v: Vec<MigrationStep> = Vec::new();
    v.push(MigrationStep { version: 1, name: "habits_frequency", sql: "ALTER TABLE habits ADD COLUMN frequency VARCHAR(50) NULL" });
    v.push(MigrationStep { version: 2, name: "habits_goal", sql: "ALTER TABLE habits ADD COLUMN goal VARCHAR(50) NULL" });
    v.push(MigrationStep { version: 3, name: "habits_start_date", sql: "ALTER TABLE habits ADD COLUMN start_date VARCHAR(20) NULL" });
    v.push(MigrationStep { version: 4, name: "habits_duration", sql: "ALTER TABLE habits ADD COLUMN duration VARCHAR(50) NULL" });
    v.push(MigrationStep { version: 5, name: "habits_category", sql: "ALTER TABLE habits ADD COLUMN category VARCHAR(50) NULL" });
    v.push(MigrationStep { version: 6, name: "habits_reminder", sql: "ALTER TABLE habits ADD COLUMN reminder VARCHAR(50) NULL" });
    v.push(MigrationStep { version: 7, name: "habits_auto_popup", sql: "ALTER TABLE habits ADD COLUMN auto_popup_log TINYINT(1) NOT NULL DEFAULT 0" });
    v.push(MigrationStep { version: 8, name: "tm_reminder", sql: "ALTER TABLE time_management_tasks ADD COLUMN reminder VARCHAR(100) NULL" });
    v.push(MigrationStep { version: 9, name: "pomodoro_fav_updated_at", sql: "ALTER TABLE pomodoro_favorites ADD COLUMN updated_at DATETIME(3) NOT NULL DEFAULT CURRENT_TIMESTAMP(3)" });
    v.push(MigrationStep { version: 10, name: "tm_deleted_at", sql: "ALTER TABLE time_management_tasks ADD COLUMN deleted_at DATETIME(3) NULL" });
    v.push(MigrationStep { version: 11, name: "daily_reviews_deleted_at", sql: "ALTER TABLE daily_reviews ADD COLUMN deleted_at DATETIME(3) NULL" });
    v.push(MigrationStep { version: 12, name: "list_note_groups_deleted_at", sql: "ALTER TABLE list_note_groups ADD COLUMN deleted_at DATETIME(3) NULL" });
    v.push(MigrationStep { version: 13, name: "list_templates_deleted_at", sql: "ALTER TABLE list_templates ADD COLUMN deleted_at DATETIME(3) NULL" });
    v.push(MigrationStep { version: 14, name: "mission_statement_deleted_at", sql: "ALTER TABLE mission_statement ADD COLUMN deleted_at DATETIME(3) NULL" });
    v.push(MigrationStep { version: 15, name: "mission_roles_deleted_at", sql: "ALTER TABLE mission_roles ADD COLUMN deleted_at DATETIME(3) NULL" });
    v.push(MigrationStep { version: 16, name: "mission_goals_deleted_at", sql: "ALTER TABLE mission_goals ADD COLUMN deleted_at DATETIME(3) NULL" });
    v.push(MigrationStep { version: 17, name: "habits_deleted_at", sql: "ALTER TABLE habits ADD COLUMN deleted_at DATETIME(3) NULL" });
    v.push(MigrationStep { version: 18, name: "habit_checkins_deleted_at", sql: "ALTER TABLE habit_checkins ADD COLUMN deleted_at DATETIME(3) NULL" });
    v.push(MigrationStep { version: 19, name: "pomodoro_records_updated_at", sql: "ALTER TABLE pomodoro_records ADD COLUMN updated_at DATETIME(3) NOT NULL DEFAULT CURRENT_TIMESTAMP(3)" });
    v.push(MigrationStep { version: 20, name: "pomodoro_records_deleted_at", sql: "ALTER TABLE pomodoro_records ADD COLUMN deleted_at DATETIME(3) NULL" });
    v.push(MigrationStep { version: 21, name: "pomodoro_favorites_deleted_at", sql: "ALTER TABLE pomodoro_favorites ADD COLUMN deleted_at DATETIME(3) NULL" });
    v.push(MigrationStep { version: 22, name: "cleanup_orphan_notes", sql: "DELETE FROM list_notes WHERE list_id NOT IN (SELECT id FROM list_lists)" });
    v.push(MigrationStep { version: 23, name: "cleanup_orphan_goals", sql: "DELETE FROM mission_goals WHERE role_id NOT IN (SELECT id FROM mission_roles)" });
    v.push(MigrationStep { version: 24, name: "cleanup_orphan_checkins", sql: "DELETE FROM habit_checkins WHERE habit_id NOT IN (SELECT id FROM habits)" });
    v.push(MigrationStep { version: 25, name: "cleanup_orphan_groups", sql: "DELETE FROM list_note_groups WHERE list_id NOT IN (SELECT id FROM list_lists)" });
    v.push(MigrationStep { version: 26, name: "cleanup_orphan_note_groups_ref", sql: "UPDATE list_notes SET group_id = NULL WHERE group_id IS NOT NULL AND group_id NOT IN (SELECT id FROM list_note_groups)" });
    assert(migrations_view(v@) =~= migration_table());
    v
}

/// The statement a migration runs: on the local database, the two that add
/// an `updated_at` column use a text column with an empty default.
pub open spec fn local_sql(m: MigrationStepView) -> Seq<char> {
    if m.version == 9 {
        "ALTER TABLE pomodoro_favorites ADD COLUMN updated_at TEXT NOT NULL DEFAULT ''"@
    } else if m.version == 19 {
        "ALTER TABLE pomodoro_records ADD COLUMN updated_at TEXT NOT NULL DEFAULT ''"@
    } else {
        m.sql
    }
}

/// A migration still to run: `(version, name, statement)`.
pub open spec fn pending_of(m: MigrationStepView) -> (i32, Seq<char>, Seq<char>) {
    (m.version, m.name, local_sql(m))
}

/// The migrations not yet applied, in order.
pub open spec fn pending(table: Seq<MigrationStepView>, applied: Seq<i32>) -> Seq<(i32, Seq<char>, Seq<char>)>
    decreases table.len(),
{
    if table.len() == 0 {
        Seq::empty()
    } else {
        let rest = pending(table.drop_last(), applied);
        if applied.contains(table.last().version) {
            rest
        } else {
            rest.push(pending_of(table.last()))
        }
    }
}

pub open spec fn pending_view(v: Seq<(i32, &'static str, &'static str)>) -> Seq<(i32, Seq<char>, Seq<char>)> {
    v.map_values(|p: (i32, &'static str, &'static str)| (p.0, p.1@, p.2@))
}

fn contains_version(applied: &Vec<i32>, v: i32) -> (b: bool)
    ensures
        b == applied@.contains(v),
{
    let mut i: usize = 0;
    while i < applied.len()
        invariant
            i <= applied@.len(),
            forall|j: int| 0 <= j < i ==> applied@[j] != v,
        decreases applied.len() - i,
    {
        if applied[i] == v {
            assert(applied@[i as int] == v);
            return true;
        }
        i = i + 1;
    }
    false
}

/// The migrations to run, given the versions already applied.
pub fn pending_migrations(applied: &Vec<i32>) -> (r: Vec<(i32, &'static str, &'static str)>)
    ensures
        pending_view(r@) == pending(migration_table(), applied@),
{
    let table = common_migrations();
    let mut out: Vec<(i32, &'static str, &'static str)> = Vec::new();
    let mut i: usize = 0;
    while i < table.len()
        invariant
            i <= table@.len(),
            migrations_view(table@) == migration_table(),
            pending_view(out@) == pending(migration_table().take(i as int), applied@),
        decreases table.len() - i,
    {
        let m = &table[i];
        assert(migration_table()[i as int] == m@);
        assert(migration_table().take(i + 1).drop_last() =~= migration_table().take(i as int));
        let ghost before = pending_view(out@);
        if !contains_version(applied, m.version) {
            let sql: &'static str = if m.version == 9 {
                "ALTER TABLE pomodoro_favorites ADD COLUMN updated_at TEXT NOT NULL DEFAULT ''"
            } else if m.version == 19 {
                "ALTER TABLE pomodoro_records ADD COLUMN updated_at TEXT NOT NULL DEFAULT ''"
            } else {
                m.sql
            };
            out.push((m.version, m.name, sql));
            assert(pending_view(out@) =~= before.push(pending_of(m@)));
        }
        i = i + 1;
    }
    assert(migration_table().take(table@.len() as int) =~= migration_table());
    out
}

/// The versions of a list of pending migrations.
pub open spec fn versions(p: Seq<(i32, Seq<char>, Seq<char>)>) -> Seq<i32> {
    p.map_values(|m: (i32, Seq<char>, Seq<char>)| m.0)
}

proof fn lemma_pending_versions(table: Seq<MigrationStepView>, applied: Seq<i32>)
    ensures
        forall|i: int|
            0 <= i < table.len() ==> applied.contains(#[trigger] table[i].version) || versions(
                pending(table, applied),
            ).contains(table[i].version),
    decreases table.len(),
{
    if table.len() > 0 {
        lemma_pending_versions(table.drop_last(), applied);
        let rest = pending(table.drop_last(), applied);
        assert forall|i: int| 0 <= i < table.len() implies applied.contains(
            #[trigger] table[i].version,
        ) || versions(pending(table, applied)).contains(table[i].version) by {
            if i < table.len() - 1 {
                assert(table.drop_last()[i] == table[i]);
                if !applied.contains(table[i].version) {
                    let j = choose|j: int|
                        0 <= j < versions(rest).len() && versions(rest)[j] == table[i].version;
                    if !applied.contains(table.last().version) {
                        assert(versions(pending(table, applied))[j] == versions(rest)[j]);
                    }
                }
            } else if !applied.contains(table[i].version) {
                let p = pending(table, applied);
                assert(versions(p)[p.len() - 1] == table[i].version);
            }
        }
    }
}

proof fn lemma_nothing_pending(table: Seq<MigrationStepView>, applied: Seq<i32>)
    requires
        forall|i: int| 0 <= i < table.len() ==> applied.contains(#[trigger] table[i].version),
    ensures
        pending(table, applied).len() == 0,
    decreases table.len(),
{
    if table.len() > 0 {
        assert forall|i: int| 0 <= i < table.drop_last().len() implies applied.contains(
            #[trigger] table.drop_last()[i].version,
        ) by {
            assert(table.drop_last()[i] == table[i]);
        }
        lemma_nothing_pending(table.drop_last(), applied);
        assert(applied.contains(table[table.len() - 1].version));
    }
}

/// Once the pending migrations have run and been recorded, none is pending:
/// every migration runs at most once.
pub proof fn law_migrations_run_once(applied: Seq<i32>)
    ensures
        pending(migration_table(), applied + versions(pending(migration_table(), applied))).len()
            == 0,
{
    let table = migration_table();
    let done = applied + versions(pending(table, applied));
    lemma_pending_versions(table, applied);
    assert forall|i: int| 0 <= i < table.len() implies done.contains(#[trigger] table[i].version) by {
        if applied.contains(table[i].version) {
            let j = choose|j: int| 0 <= j < applied.len() && applied[j] == table[i].version;
            assert(done[j] == applied[j]);
        } else {
            let vs = versions(pending(table, applied));
            let j = choose|j: int| 0 <= j < vs.len() && vs[j] == table[i].version;
            assert(done[applied.len() + j] == vs[j]);
        }
    }
    lemma_nothing_pending(table, done);
}


// ---------------------------------------------------------------------------
// The local tables: every table the app keeps, with the foreign keys that
// tie notes and groups to their list, goals to their role and check-ins to
// their habit (deleting a parent deletes them, or clears the link), the
// outbox of local edits, and the indexes the pages read by.
// ---------------------------------------------------------------------------

/// The local table `mission_roles`.
pub const DDL_MISSION_ROLES: &'static str = "CREATE TABLE IF NOT EXISTS mission_roles (
        id TEXT NOT NULL PRIMARY KEY,
        name TEXT NOT NULL,
        icon TEXT NOT NULL DEFAULT '',
        sort_order INTEGER NOT NULL DEFAULT 0,
        created_at TEXT NOT NULL,
        updated_at TEXT NOT NULL,
        deleted_at TEXT NULL
    )";

/// The local table `time_management_tasks`.
pub const DDL_TIME_MANAGEMENT_TASKS: &'static str = "CREATE TABLE IF NOT EXISTS time_management_tasks (
        id TEXT NOT NULL PRIMARY KEY,
        title TEXT NOT NULL,
        role_id TEXT NULL,
        quadrant TEXT NOT NULL,
        scheduled_date TEXT NULL,
        time_of_day TEXT NULL,
        completed INTEGER NOT NULL DEFAULT 0,
        created_at INTEGER NOT NULL,
        completed_at INTEGER NULL,
        description TEXT NULL,
        deadline INTEGER NULL,
        reminder TEXT NULL,
        updated_at TEXT DEFAULT (datetime('now')),
        deleted_at TEXT NULL,
        FOREIGN KEY (role_id) REFERENCES mission_roles(id) ON DELETE SET NULL
    )";

/// The local table `daily_reviews`.
pub const DDL_DAILY_REVIEWS: &'static str = "CREATE TABLE IF NOT EXISTS daily_reviews (
        id TEXT NOT NULL PRIMARY KEY,
        date TEXT NOT NULL,
        content TEXT NOT NULL,
        rating INTEGER,
        created_at TEXT NOT NULL,
        updated_at TEXT NOT NULL,
        deleted_at TEXT NULL,
        UNIQUE (date)
    )";

/// The local table `list_folders`.
pub const DDL_LIST_FOLDERS: &'static str = "CREATE TABLE IF NOT EXISTS list_folders (
        id TEXT NOT NULL PRIMARY KEY,
        name TEXT NOT NULL,
        is_pinned INTEGER NOT NULL DEFAULT 0,
        sort_order INTEGER NOT NULL DEFAULT 0,
        created_at TEXT NOT NULL,
        updated_at TEXT NOT NULL,
        deleted_at TEXT NULL
    )";

/// The local table `list_lists`.
pub const DDL_LIST_LISTS: &'static str = "CREATE TABLE IF NOT EXISTS list_lists (
        id TEXT NOT NULL PRIMARY KEY,
        name TEXT NOT NULL,
        icon TEXT NOT NULL DEFAULT '',
        color TEXT NOT NULL DEFAULT '#000000',
        view_type TEXT NOT NULL DEFAULT 'list',
        folder_id TEXT NULL,
        is_pinned INTEGER NOT NULL DEFAULT 0,
        sort_order INTEGER NOT NULL DEFAULT 0,
        created_at TEXT NOT NULL,
        updated_at TEXT NOT NULL,
        deleted_at TEXT NULL,
        FOREIGN KEY (folder_id) REFERENCES list_folders(id) ON DELETE SET NULL
    )";

/// The local table `list_note_groups`.
pub const DDL_LIST_NOTE_GROUPS: &'static str = "CREATE TABLE IF NOT EXISTS list_note_groups (
        id TEXT NOT NULL PRIMARY KEY,
        list_id TEXT NOT NULL,
        name TEXT NOT NULL,
        sort_order INTEGER NOT NULL DEFAULT 0,
        created_at TEXT NOT NULL,
        updated_at TEXT NOT NULL,
        deleted_at TEXT NULL,
        FOREIGN KEY (list_id) REFERENCES list_lists(id) ON DELETE CASCADE
    )";

/// The local table `list_notes`.
pub const DDL_LIST_NOTES: &'static str = "CREATE TABLE IF NOT EXISTS list_notes (
        id TEXT NOT NULL PRIMARY KEY,
        list_id TEXT NOT NULL,
        group_id TEXT NULL,
        title TEXT NOT NULL DEFAULT '',
        content TEXT NOT NULL,
        is_pinned INTEGER NOT NULL DEFAULT 0,
        sort_order INTEGER NOT NULL DEFAULT 0,
        created_at TEXT NOT NULL,
        updated_at TEXT NOT NULL,
        deleted_at TEXT NULL,
        FOREIGN KEY (list_id) REFERENCES list_lists(id) ON DELETE CASCADE,
        FOREIGN KEY (group_id) REFERENCES list_note_groups(id) ON DELETE SET NULL
    )";

/// The local table `list_templates`.
pub const DDL_LIST_TEMPLATES: &'static str = "CREATE TABLE IF NOT EXISTS list_templates (
        id TEXT NOT NULL PRIMARY KEY,
        name TEXT NOT NULL,
        content TEXT NOT NULL,
        created_at TEXT NOT NULL,
        updated_at TEXT NOT NULL,
        deleted_at TEXT NULL
    )";

/// The local table `app_preferences`.
pub const DDL_APP_PREFERENCES: &'static str = "CREATE TABLE IF NOT EXISTS app_preferences (
        pref_key TEXT NOT NULL PRIMARY KEY,
        pref_value TEXT NOT NULL,
        updated_at TEXT DEFAULT (datetime('now'))
    )";

/// The local table `mission_statement`.
pub const DDL_MISSION_STATEMENT: &'static str = "CREATE TABLE IF NOT EXISTS mission_statement (
        id TEXT NOT NULL PRIMARY KEY,
        content TEXT NOT NULL,
        updated_at TEXT NOT NULL,
        deleted_at TEXT NULL
    )";

/// The local table `mission_goals`.
pub const DDL_MISSION_GOALS: &'static str = "CREATE TABLE IF NOT EXISTS mission_goals (
        id TEXT NOT NULL PRIMARY KEY,
        role_id TEXT NOT NULL,
        title TEXT NOT NULL,
        status TEXT NOT NULL DEFAULT 'not_started',
        time_scope TEXT NOT NULL DEFAULT 'long',
        start_date TEXT NULL,
        end_date TEXT NULL,
        sort_order INTEGER NOT NULL DEFAULT 0,
        created_at TEXT NOT NULL,
        updated_at TEXT NOT NULL,
        deleted_at TEXT NULL,
        FOREIGN KEY (role_id) REFERENCES mission_roles(id) ON DELETE CASCADE
    )";

/// The local table `habits`.
pub const DDL_HABITS: &'static str = "CREATE TABLE IF NOT EXISTS habits (
        id TEXT NOT NULL PRIMARY KEY,
        name TEXT NOT NULL,
        frequency TEXT NULL,
        goal TEXT NULL,
        start_date TEXT NULL,
        duration TEXT NULL,
        category TEXT NULL,
        reminder TEXT NULL,
        auto_popup_log INTEGER NOT NULL DEFAULT 0,
        created_at TEXT NOT NULL,
        updated_at TEXT NOT NULL,
        deleted_at TEXT NULL
    )";

/// The local table `habit_checkins`.
pub const DDL_HABIT_CHECKINS: &'static str = "CREATE TABLE IF NOT EXISTS habit_checkins (
        id TEXT NOT NULL PRIMARY KEY,
        habit_id TEXT NOT NULL,
        date TEXT NOT NULL,
        completed INTEGER NOT NULL DEFAULT 1,
        created_at TEXT NOT NULL,
        updated_at TEXT NOT NULL,
        deleted_at TEXT NULL,
        UNIQUE (habit_id, date),
        FOREIGN KEY (habit_id) REFERENCES habits(id) ON DELETE CASCADE
    )";

/// The local table `pomodoro_records`.
pub const DDL_POMODORO_RECORDS: &'static str = "CREATE TABLE IF NOT EXISTS pomodoro_records (
        id TEXT NOT NULL PRIMARY KEY,
        mode TEXT NOT NULL,
        phase TEXT NOT NULL,
        start_time TEXT NOT NULL,
        end_time TEXT NOT NULL,
        duration_minutes INTEGER NOT NULL,
        date TEXT NOT NULL,
        date_label TEXT NOT NULL,
        time_range_label TEXT NOT NULL,
        task_id TEXT NULL,
        linked_target TEXT NULL,
        created_at TEXT NOT NULL,
        updated_at TEXT NOT NULL,
        deleted_at TEXT NULL,
        FOREIGN KEY (task_id) REFERENCES time_management_tasks(id) ON DELETE SET NULL
    )";

/// The local table `pomodoro_favorites`.
pub const DDL_POMODORO_FAVORITES: &'static str = "CREATE TABLE IF NOT EXISTS pomodoro_favorites (
        id TEXT NOT NULL PRIMARY KEY,
        name TEXT NOT NULL,
        icon TEXT NOT NULL DEFAULT '😊',
        mode TEXT NOT NULL,
        duration_minutes INTEGER NOT NULL,
        accumulated_minutes INTEGER NOT NULL DEFAULT 0,
        linked_target TEXT NULL,
        is_archived INTEGER NOT NULL DEFAULT 0,
        created_at TEXT NOT NULL,
        updated_at TEXT NOT NULL DEFAULT '',
        deleted_at TEXT NULL
    )";

/// The local table `sync_state`.
pub const DDL_SYNC_STATE: &'static str = "CREATE TABLE IF NOT EXISTS sync_state (
        table_name TEXT NOT NULL PRIMARY KEY,
        last_pulled_at TEXT NULL,
        last_pushed_at TEXT NULL
    )";

/// The local table `schema_migrations`.
pub const DDL_SCHEMA_MIGRATIONS: &'static str = "CREATE TABLE IF NOT EXISTS schema_migrations (
        version INTEGER NOT NULL PRIMARY KEY,
        name TEXT NOT NULL,
        applied_at TEXT NOT NULL DEFAULT (datetime('now'))
    )";

/// The local table `dict_cache`.
pub const DDL_DICT_CACHE: &'static str = "CREATE TABLE IF NOT EXISTS dict_cache (
        word TEXT NOT NULL PRIMARY KEY,
        phonetic TEXT NOT NULL DEFAULT '',
        definition TEXT NOT NULL DEFAULT '',
        translation TEXT NOT NULL DEFAULT '',
        pos TEXT NOT NULL DEFAULT '',
        tag TEXT NOT NULL DEFAULT '',
        exchange TEXT NOT NULL DEFAULT '',
        collins INTEGER NOT NULL DEFAULT 0,
        oxford INTEGER NOT NULL DEFAULT 0,
        created_at TEXT NOT NULL
    )";

/// The local table `task_reminder_fired`.
pub const DDL_TASK_REMINDER_FIRED: &'static str = "CREATE TABLE IF NOT EXISTS task_reminder_fired (
        key TEXT NOT NULL PRIMARY KEY,
        fired_at INTEGER NOT NULL
    )";

/// The local table `outbox_queue`.
pub const DDL_OUTBOX_QUEUE: &'static str = "CREATE TABLE IF NOT EXISTS outbox_queue (
        id INTEGER PRIMARY KEY AUTOINCREMENT,
        table_name TEXT NOT NULL,
        record_id TEXT NOT NULL,
        operation TEXT NOT NULL,
        created_at TEXT NOT NULL
    )";

/// The index `idx_list_lists_folder`.
pub const DDL_IDX_LIST_LISTS_FOLDER: &'static str = "CREATE INDEX IF NOT EXISTS idx_list_lists_folder ON list_lists(folder_id, sort_order)";

/// The index `idx_list_notes_list_group`.
pub const DDL_IDX_LIST_NOTES_LIST_GROUP: &'static str = "CREATE INDEX IF NOT EXISTS idx_list_notes_list_group ON list_notes(list_id, group_id, sort_order)";

/// The index `idx_list_notes_pinned`.
pub const DDL_IDX_LIST_NOTES_PINNED: &'static str = "CREATE INDEX IF NOT EXISTS idx_list_notes_pinned ON list_notes(list_id, is_pinned)";

/// The index `idx_list_note_groups_list`.
pub const DDL_IDX_LIST_NOTE_GROUPS_LIST: &'static str = "CREATE INDEX IF NOT EXISTS idx_list_note_groups_list ON list_note_groups(list_id, sort_order)";

/// The index `idx_mission_goals_role`.
pub const DDL_IDX_MISSION_GOALS_ROLE: &'static str = "CREATE INDEX IF NOT EXISTS idx_mission_goals_role ON mission_goals(role_id, sort_order)";

/// The index `idx_habit_checkins_habit`.
pub const DDL_IDX_HABIT_CHECKINS_HABIT: &'static str = "CREATE INDEX IF NOT EXISTS idx_habit_checkins_habit ON habit_checkins(habit_id)";

/// The definitions of the local tables and indexes, in the order they are created.
pub open spec fn local_ddl() -> Seq<Seq<char>> {
    seq![
        DDL_MISSION_ROLES@,
        DDL_TIME_MANAGEMENT_TASKS@,
        DDL_DAILY_REVIEWS@,
        DDL_LIST_FOLDERS@,
        DDL_LIST_LISTS@,
        DDL_LIST_NOTE_GROUPS@,
        DDL_LIST_NOTES@,
        DDL_LIST_TEMPLATES@,
        DDL_APP_PREFERENCES@,
        DDL_MISSION_STATEMENT@,
        DDL_MISSION_GOALS@,
        DDL_HABITS@,
        DDL_HABIT_CHECKINS@,
        DDL_POMODORO_RECORDS@,
        DDL_POMODORO_FAVORITES@,
        DDL_SYNC_STATE@,
        DDL_SCHEMA_MIGRATIONS@,
        DDL_DICT_CACHE@,
        DDL_TASK_REMINDER_FIRED@,
        DDL_OUTBOX_QUEUE@,
        DDL_IDX_LIST_LISTS_FOLDER@,
        DDL_IDX_LIST_NOTES_LIST_GROUP@,
        DDL_IDX_LIST_NOTES_PINNED@,
        DDL_IDX_LIST_NOTE_GROUPS_LIST@,
        DDL_IDX_MISSION_GOALS_ROLE@,
        DDL_IDX_HABIT_CHECKINS_HABIT@,
    ]
}

pub open spec fn strs_view(v: Seq<&'static str>) -> Seq<Seq<char>> {
    v.map_values(|s: &'static str| s@)
}

/// The statements that create the local tables and indexes; each is
/// `IF NOT EXISTS`, so running them again changes nothing.
pub fn local_table_definitions() -> (v: Vec<&'static str>)
    ensures
        strs_view(v@) == local_ddl(),
{
    let mut v: Vec<&'static str> = Vec::new();
    v.push(DDL_MISSION_ROLES);
    v.push(DDL_TIME_MANAGEMENT_TASKS);
    v.push(DDL_DAILY_REVIEWS);
    v.push(DDL_LIST_FOLDERS);
    v.push(DDL_LIST_LISTS);
    v.push(DDL_LIST_NOTE_GROUPS);
    v.push(DDL_LIST_NOTES);
    v.push(DDL_LIST_TEMPLATES);
    v.push(DDL_APP_PREFERENCES);
    v.push(DDL_MISSION_STATEMENT);
    v.push(DDL_MISSION_GOALS);
    v.push(DDL_HABITS);
    v.push(DDL_HABIT_CHECKINS);
    v.push(DDL_POMODORO_RECORDS);
    v.push(DDL_POMODORO_FAVORITES);
    v.push(DDL_SYNC_STATE);
    v.push(DDL_SCHEMA_MIGRATIONS);
    v.push(DDL_DICT_CACHE);
    v.push(DDL_TASK_REMINDER_FIRED);
    v.push(DDL_OUTBOX_QUEUE);
    v.push(DDL_IDX_LIST_LISTS_FOLDER);
    v.push(DDL_IDX_LIST_NOTES_LIST_GROUP);
    v.push(DDL_IDX_LIST_NOTES_PINNED);
    v.push(DDL_IDX_LIST_NOTE_GROUPS_LIST);
    v.push(DDL_IDX_MISSION_GOALS_ROLE);
    v.push(DDL_IDX_HABIT_CHECKINS_HABIT);
    assert(strs_view(v@) =~= local_ddl());
    v
}

} // verus!
