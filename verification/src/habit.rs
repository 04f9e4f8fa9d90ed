use vstd::prelude::*;
use crate::clock::{is_local_day_text, is_storage_stamp, now_iso, today_local_text};
use crate::error::{AppError, AppResult};
use crate::ids::{uuid_shaped, uuid_v4_text};
use crate::row::{
    bool_of, cell_at, flag, flag_value, opt_str_of, opt_text_value, opt_text_view, str_of,
    text_value, soft_delete_params, soft_delete_row, statement, statements_view, CellValue, CellView,
    Row, RowExt, Statement,
};
use crate::queries::{SOFT_DELETE_CHECKINS_OF_HABIT, SOFT_DELETE_HABIT};
use crate::text::{all_white, contains_string, is_blank, strings_view};

verus! {

// ---------------------------------------------------------------------------
// Habits and check-ins
// ---------------------------------------------------------------------------

#[derive(Debug, Clone, PartialEq)]
pub struct Habit {
    pub id: String,
    pub name: String,
    pub frequency: Option<String>,
    pub goal: Option<String>,
    pub start_date: Option<String>,
    pub duration: Option<String>,
    pub group: Option<String>,
    pub reminder: Option<String>,
    pub check_in_time: Option<String>,
    pub auto_popup_log: bool,
    pub created_at: String,
    pub updated_at: String,
}

pub struct HabitView {
    pub id: Seq<char>,
    pub name: Seq<char>,
    pub frequency: Option<Seq<char>>,
    pub goal: Option<Seq<char>>,
    pub start_date: Option<Seq<char>>,
    pub duration: Option<Seq<char>>,
    pub group: Option<Seq<char>>,
    pub reminder: Option<Seq<char>>,
    pub check_in_time: Option<Seq<char>>,
    pub auto_popup_log: bool,
    pub created_at: Seq<char>,
    pub updated_at: Seq<char>,
}

impl View for Habit {
    type V = HabitView;

    open spec fn view(&self) -> HabitView {
        HabitView {
            id: self.id@,
            name: self.name@,
            frequency: self.frequency.deep_view(),
            goal: self.goal.deep_view(),
            start_date: self.start_date.deep_view(),
            duration: self.duration.deep_view(),
            group: self.group.deep_view(),
            reminder: self.reminder.deep_view(),
            check_in_time: self.check_in_time.deep_view(),
            auto_popup_log: self.auto_popup_log,
            created_at: self.created_at@,
            updated_at: self.updated_at@,
        }
    }
}

/// The fields a habit is created or updated with; any may be missing.
#[derive(Debug, Clone, PartialEq)]
pub struct HabitPayload {
    pub name: Option<String>,
    pub frequency: Option<String>,
    pub goal: Option<String>,
    pub start_date: Option<String>,
    pub duration: Option<String>,
    pub group: Option<String>,
    pub reminder: Option<String>,
    pub check_in_time: Option<String>,
    pub auto_popup_log: Option<bool>,
}

pub struct HabitPayloadView {
    pub name: Option<Seq<char>>,
    pub frequency: Option<Seq<char>>,
    pub goal: Option<Seq<char>>,
    pub start_date: Option<Seq<char>>,
    pub duration: Option<Seq<char>>,
    pub group: Option<Seq<char>>,
    pub reminder: Option<Seq<char>>,
    pub check_in_time: Option<Seq<char>>,
    pub auto_popup_log: Option<bool>,
}

impl View for HabitPayload {
    type V = HabitPayloadView;

    open spec fn view(&self) -> HabitPayloadView {
        HabitPayloadView {
            name: self.name.deep_view(),
            frequency: self.frequency.deep_view(),
            goal: self.goal.deep_view(),
            start_date: self.start_date.deep_view(),
            duration: self.duration.deep_view(),
            group: self.group.deep_view(),
            reminder: self.reminder.deep_view(),
            check_in_time: self.check_in_time.deep_view(),
            auto_popup_log: self.auto_popup_log,
        }
    }
}

#[derive(Debug, Clone, PartialEq)]
pub struct HabitCheckIn {
    pub id: String,
    pub habit_id: String,
    pub date: String,
    pub completed: bool,
    pub created_at: String,
    pub updated_at: String,
}

pub struct CheckInView {
    pub id: Seq<char>,
    pub habit_id: Seq<char>,
    pub date: Seq<char>,
    pub completed: bool,
    pub created_at: Seq<char>,
    pub updated_at: Seq<char>,
}

impl View for HabitCheckIn {
    type V = CheckInView;

    open spec fn view(&self) -> CheckInView {
        CheckInView {
            id: self.id@,
            habit_id: self.habit_id@,
            date: self.date@,
            completed: self.completed,
            created_at: self.created_at@,
            updated_at: self.updated_at@,
        }
    }
}

/// Everything the habits page loads at once.
#[derive(Debug, Clone, PartialEq)]
pub struct HabitData {
    pub habits: Vec<Habit>,
    pub check_ins: Vec<HabitCheckIn>,
}

pub open spec fn habits_view(v: Seq<Habit>) -> Seq<HabitView> {
    v.map_values(|h: Habit| h@)
}

pub open spec fn check_ins_view(v: Seq<HabitCheckIn>) -> Seq<CheckInView> {
    v.map_values(|c: HabitCheckIn| c@)
}

pub open spec fn habit_ids(v: Seq<HabitView>) -> Seq<Seq<char>> {
    v.map_values(|h: HabitView| h.id)
}

// ---------------------------------------------------------------------------
// Loading: one row per habit and check-in of a LEFT JOIN
// ---------------------------------------------------------------------------

/// The habit of a joined row: columns 0 to 10 (the stored `category` is the
/// habit's group, its reminder is also its check-in time).
pub open spec fn habit_of_row(row: Seq<CellView>) -> HabitView {
    HabitView {
        id: str_of(cell_at(row, 0)),
        name: str_of(cell_at(row, 1)),
        frequency: opt_str_of(cell_at(row, 2)),
        goal: opt_str_of(cell_at(row, 3)),
        start_date: opt_str_of(cell_at(row, 4)),
        duration: opt_str_of(cell_at(row, 5)),
        group: opt_str_of(cell_at(row, 6)),
        reminder: opt_str_of(cell_at(row, 7)),
        check_in_time: opt_str_of(cell_at(row, 7)),
        auto_popup_log: bool_of(cell_at(row, 8)),
        created_at: str_of(cell_at(row, 9)),
        updated_at: str_of(cell_at(row, 10)),
    }
}

/// The check-in of a joined row, none where the join found no check-in.
pub open spec fn check_in_of_row(row: Seq<CellView>) -> Option<CheckInView> {
    match opt_str_of(cell_at(row, 11)) {
        Some(id) => Some(
            CheckInView {
                id,
                habit_id: str_of(cell_at(row, 0)),
                date: str_of(cell_at(row, 12)),
                completed: bool_of(cell_at(row, 13)),
                created_at: str_of(cell_at(row, 14)),
                updated_at: str_of(cell_at(row, 15)),
            },
        ),
        None => None,
    }
}

/// The habits (each once, where its id first appears) and check-ins of the
/// joined rows, in row order; rows without a habit id are skipped.
pub open spec fn load_habits(rows: Seq<Seq<CellView>>) -> (Seq<HabitView>, Seq<CheckInView>)
    decreases rows.len(),
{
    if rows.len() == 0 {
        (Seq::empty(), Seq::empty())
    } else {
        let (hs, cs) = load_habits(rows.drop_last());
        let row = rows.last();
        let id = str_of(cell_at(row, 0));
        if id.len() == 0 {
            (hs, cs)
        } else {
            let hs2 = if habit_ids(hs).contains(id) {
                hs
            } else {
                hs.push(habit_of_row(row))
            };
            let cs2 = match check_in_of_row(row) {
                Some(c) => cs.push(c),
                None => cs,
            };
            (hs2, cs2)
        }
    }
}

pub open spec fn rows_of(rows: Seq<Row>) -> Seq<Seq<CellView>> {
    rows.map_values(|r: Row| r@)
}

fn habit_from_row(row: &Row) -> (h: Habit)
    ensures
        h@ == habit_of_row(row@),
{
    let reminder = row.parse_opt_str(7);
    Habit {
        id: row.parse_str(0),
        name: row.parse_str(1),
        frequency: row.parse_opt_str(2),
        goal: row.parse_opt_str(3),
        start_date: row.parse_opt_str(4),
        duration: row.parse_opt_str(5),
        group: row.parse_opt_str(6),
        check_in_time: row.parse_opt_str(7),
        reminder,
        auto_popup_log: row.parse_bool(8),
        created_at: row.parse_str(9),
        updated_at: row.parse_str(10),
    }
}

fn check_in_from_row(row: &Row) -> (r: Option<HabitCheckIn>)
    ensures
        r matches Some(c) ==> check_in_of_row(row@) == Some(c@),
        r is None ==> check_in_of_row(row@) is None,
{
    match row.parse_opt_str(11) {
        Some(id) => Some(
            HabitCheckIn {
                id,
                habit_id: row.parse_str(0),
                date: row.parse_str(12),
                completed: row.parse_bool(13),
                created_at: row.parse_str(14),
                updated_at: row.parse_str(15),
            },
        ),
        None => None,
    }
}

/// The habits page's data from the rows of its joined query.
pub fn habit_load_all(rows: &Vec<Row>) -> (d: HabitData)
    ensures
        (habits_view(d.habits@), check_ins_view(d.check_ins@)) == load_habits(rows_of(rows@)),
{
    let mut habits: Vec<Habit> = Vec::new();
    let mut check_ins: Vec<HabitCheckIn> = Vec::new();
    let mut seen: Vec<String> = Vec::new();
    let mut i: usize = 0;
    while i < rows.len()
        invariant
            i <= rows@.len(),
            (habits_view(habits@), check_ins_view(check_ins@)) == load_habits(
                rows_of(rows@).take(i as int),
            ),
            strings_view(seen@) == habit_ids(habits_view(habits@)),
        decreases rows.len() - i,
    {
        let ghost prefix = rows_of(rows@).take(i + 1);
        assert(prefix.drop_last() =~= rows_of(rows@).take(i as int));
        assert(prefix.last() == rows@[i as int]@);
        let row = &rows[i];
        let habit_id = row.parse_str(0);
        if !habit_id.as_str().is_empty() {
            let ghost hs_before = habits_view(habits@);
            let ghost cs_before = check_ins_view(check_ins@);
            if !contains_string(&seen, habit_id.as_str()) {
                let ghost seen_before = strings_view(seen@);
                let h = habit_from_row(row);
                habits.push(h);
                seen.push(habit_id);
                assert(habits_view(habits@) =~= hs_before.push(habit_of_row(row@)));
                assert(strings_view(seen@) =~= seen_before.push(str_of(cell_at(row@, 0))));
                assert(habit_ids(habits_view(habits@)) =~= habit_ids(hs_before).push(
                    str_of(cell_at(row@, 0)),
                ));
            }
            match check_in_from_row(row) {
                Some(c) => {
                    check_ins.push(c);
                    assert(check_ins_view(check_ins@) =~= cs_before.push(c@));
                },
                None => {},
            }
        }
        i = i + 1;
    }
    assert(rows_of(rows@).take(rows@.len() as int) =~= rows_of(rows@));
    HabitData { habits, check_ins }
}

// ---------------------------------------------------------------------------
// Creating and updating
// ---------------------------------------------------------------------------

/// The reminder a payload sets: its check-in time, else its reminder.
pub open spec fn payload_reminder(p: HabitPayloadView) -> Option<Seq<char>> {
    match p.check_in_time {
        Some(t) => Some(t),
        None => p.reminder,
    }
}

pub open spec fn payload_popup(p: HabitPayloadView) -> bool {
    match p.auto_popup_log {
        Some(b) => b,
        None => false,
    }
}

/// The start date of a new habit: the given one unless it is blank, else today.
pub open spec fn start_date_or_today(start: Option<Seq<char>>, today: Seq<char>) -> Seq<char> {
    match start {
        Some(s) => if !all_white(s) {
            s
        } else {
            today
        },
        None => today,
    }
}

/// The habit a payload creates under `id` at `now`, on the local day `today`.
pub open spec fn created_habit(
    p: HabitPayloadView,
    id: Seq<char>,
    now: Seq<char>,
    today: Seq<char>,
) -> HabitView {
    HabitView {
        id,
        name: match p.name {
            Some(n) => n,
            None => Seq::empty(),
        },
        frequency: p.frequency,
        goal: p.goal,
        start_date: Some(start_date_or_today(p.start_date, today)),
        duration: p.duration,
        group: p.group,
        reminder: payload_reminder(p),
        check_in_time: payload_reminder(p),
        auto_popup_log: payload_popup(p),
        created_at: now,
        updated_at: now,
    }
}

/// The values the insert of a new habit binds: `id, name, frequency, goal,
/// start_date, duration, category, reminder, auto_popup_log, created_at,
/// updated_at`.
pub open spec fn habit_insert_params(h: HabitView) -> Seq<CellView> {
    seq![
        CellView::Text(h.id),
        CellView::Text(h.name),
        opt_text_view(h.frequency),
        opt_text_view(h.goal),
        opt_text_view(h.start_date),
        opt_text_view(h.duration),
        opt_text_view(h.group),
        opt_text_view(h.reminder),
        CellView::Integer(flag(h.auto_popup_log)),
        CellView::Text(h.created_at),
        CellView::Text(h.updated_at),
    ]
}

fn clone_opt(o: &Option<String>) -> (r: Option<String>)
    ensures
        r.deep_view() == o.deep_view(),
{
    match o {
        Some(s) => Some(s.clone()),
        None => None,
    }
}

fn reminder_of(p: &HabitPayload) -> (r: Option<String>)
    ensures
        r.deep_view() == payload_reminder(p@),
{
    match &p.check_in_time {
        Some(t) => Some(t.clone()),
        None => clone_opt(&p.reminder),
    }
}

/// A new habit and the values of its insert.
pub fn new_habit(p: &HabitPayload, id: String, now: &str, today: &str) -> (r: (Habit, Row))
    ensures
        r.0@ == created_habit(p@, id@, now@, today@),
        r.1@ == habit_insert_params(r.0@),
{
    let start = match &p.start_date {
        Some(s) => if !is_blank(s.as_str()) {
            s.clone()
        } else {
            today.to_string()
        },
        None => today.to_string(),
    };
    let popup = match p.auto_popup_log {
        Some(b) => b,
        None => false,
    };
    let h = Habit {
        id,
        name: match &p.name {
            Some(n) => n.clone(),
            None => String::new(),
        },
        frequency: clone_opt(&p.frequency),
        goal: clone_opt(&p.goal),
        start_date: Some(start),
        duration: clone_opt(&p.duration),
        group: clone_opt(&p.group),
        reminder: reminder_of(p),
        check_in_time: reminder_of(p),
        auto_popup_log: popup,
        created_at: now.to_string(),
        updated_at: now.to_string(),
    };
    let mut cells: Vec<CellValue> = Vec::new();
    cells.push(text_value(h.id.as_str()));
    cells.push(text_value(h.name.as_str()));
    cells.push(opt_text_value(&h.frequency));
    cells.push(opt_text_value(&h.goal));
    cells.push(opt_text_value(&h.start_date));
    cells.push(opt_text_value(&h.duration));
    cells.push(opt_text_value(&h.group));
    cells.push(opt_text_value(&h.reminder));
    cells.push(flag_value(h.auto_popup_log));
    cells.push(text_value(h.created_at.as_str()));
    cells.push(text_value(h.updated_at.as_str()));
    let params = Row { cells };
    assert(params@ =~= habit_insert_params(h@));
    (h, params)
}

/// Creates a habit under a fresh UUID, stamped with the current time and, for
/// a missing start date, today's local date. Which id, time and day these
/// are is chance and the clock; their shapes are stated.
pub fn habit_create(p: &HabitPayload) -> (r: (Habit, Row))
    ensures
        exists|id: Seq<char>, now: Seq<char>, today: Seq<char>|
            uuid_shaped(id) && is_storage_stamp(now) && is_local_day_text(today)
                && #[trigger] created_habit(p@, id, now, today) == r.0@,
        r.1@ == habit_insert_params(r.0@),
{
    let id = uuid_v4_text();
    let now = now_iso();
    let today = today_local_text();
    let ghost gid = id@;
    let r = new_habit(p, id, now.as_str(), today.as_str());
    assert(created_habit(p@, gid, now@, today@) == r.0@);
    r
}

/// The values an update binds: `name` (kept when missing), `frequency`,
/// `goal`, `start_date`, `duration`, `category`, the reminder (kept when
/// missing), `auto_popup_log`, `updated_at` and the habit's id.
pub open spec fn habit_update_params(p: HabitPayloadView, now: Seq<char>, id: Seq<char>) -> Seq<
    CellView,
> {
    seq![
        opt_text_view(p.name),
        opt_text_view(p.frequency),
        opt_text_view(p.goal),
        opt_text_view(p.start_date),
        opt_text_view(p.duration),
        opt_text_view(p.group),
        opt_text_view(payload_reminder(p)),
        CellView::Integer(flag(payload_popup(p))),
        CellView::Text(now),
        CellView::Text(id),
    ]
}

pub fn habit_update(id: &str, p: &HabitPayload, now: &str) -> (r: Row)
    ensures
        r@ == habit_update_params(p@, now@, id@),
{
    let reminder = reminder_of(p);
    let popup = match p.auto_popup_log {
        Some(b) => b,
        None => false,
    };
    let mut cells: Vec<CellValue> = Vec::new();
    cells.push(opt_text_value(&p.name));
    cells.push(opt_text_value(&p.frequency));
    cells.push(opt_text_value(&p.goal));
    cells.push(opt_text_value(&p.start_date));
    cells.push(opt_text_value(&p.duration));
    cells.push(opt_text_value(&p.group));
    cells.push(opt_text_value(&reminder));
    cells.push(flag_value(popup));
    cells.push(text_value(now));
    cells.push(text_value(id));
    let r = Row { cells };
    assert(r@ =~= habit_update_params(p@, now@, id@));
    r
}

// ---------------------------------------------------------------------------
// Checking in
// ---------------------------------------------------------------------------

/// The values a check-in upsert binds: `id, habit_id, date, completed,
/// created_at, updated_at`.
pub open spec fn checkin_params(
    checkin_id: Seq<char>,
    habit_id: Seq<char>,
    date: Seq<char>,
    completed: bool,
    now: Seq<char>,
) -> Seq<CellView> {
    seq![
        CellView::Text(checkin_id),
        CellView::Text(habit_id),
        CellView::Text(date),
        CellView::Integer(flag(completed)),
        CellView::Text(now),
        CellView::Text(now),
    ]
}

pub fn checkin_upsert_params(
    checkin_id: &str,
    habit_id: &str,
    date: &str,
    completed: bool,
    now: &str,
) -> (r: Row)
    ensures
        r@ == checkin_params(checkin_id@, habit_id@, date@, completed, now@),
{
    let mut cells: Vec<CellValue> = Vec::new();
    cells.push(text_value(checkin_id));
    cells.push(text_value(habit_id));
    cells.push(text_value(date));
    cells.push(flag_value(completed));
    cells.push(text_value(now));
    cells.push(text_value(now));
    let r = Row { cells };
    assert(r@ =~= checkin_params(checkin_id@, habit_id@, date@, completed, now@));
    r
}

/// The upsert of a check-in for `habit_id` on `date`, under a fresh UUID and
/// the current time.
pub fn habit_toggle_checkin(habit_id: &str, date: &str, completed: bool) -> (r: Row)
    ensures
        exists|id: Seq<char>, now: Seq<char>|
            uuid_shaped(id) && is_storage_stamp(now) && r@ == #[trigger] checkin_params(
                id,
                habit_id@,
                date@,
                completed,
                now,
            ),
{
    let id = uuid_v4_text();
    let now = now_iso();
    checkin_upsert_params(id.as_str(), habit_id, date, completed, now.as_str())
}

/// The message of a check-in upsert that returned no row.
pub open spec fn no_checkin_message() -> Seq<char> {
    "habit_toggle_checkin: upsert returned no row"@
}

/// The check-in an upsert returned (`id, completed, created_at, updated_at`),
/// for `habit_id` on `date`; an upsert that returned no row is an error.
pub fn checkin_from_returning(habit_id: String, date: String, row: Option<&Row>) -> (r: AppResult<
    HabitCheckIn,
>)
    ensures
        r is Ok <==> row is Some,
        r matches Ok(c) ==> row matches Some(x) && c@ == (CheckInView {
            id: str_of(cell_at(x@, 0)),
            habit_id: habit_id@,
            date: date@,
            completed: bool_of(cell_at(x@, 1)),
            created_at: str_of(cell_at(x@, 2)),
            updated_at: str_of(cell_at(x@, 3)),
        }),
        r matches Err(e) ==> e is NotFound && e.message_spec() == no_checkin_message(),
{
    match row {
        Some(x) => Ok(
            HabitCheckIn {
                id: x.parse_str(0),
                habit_id,
                date,
                completed: x.parse_bool(1),
                created_at: x.parse_str(2),
                updated_at: x.parse_str(3),
            },
        ),
        None => Err(AppError::NotFound("habit_toggle_checkin: upsert returned no row".to_string())),
    }
}

// ---------------------------------------------------------------------------
// Laws
// ---------------------------------------------------------------------------

/// Whether an optional text is stored and read back unchanged: missing, or
/// not blank.
pub open spec fn keeps_opt_text(o: Option<Seq<char>>) -> bool {
    o matches Some(s) ==> !all_white(s)
}

/// A loaded habit list holds each habit once: no two habits share an id.
pub proof fn law_habits_unique(rows: Seq<Seq<CellView>>)
    ensures
        forall|i: int, j: int|
            0 <= i < j < load_habits(rows).0.len() ==> load_habits(rows).0[i].id
                != load_habits(rows).0[j].id,
    decreases rows.len(),
{
    if rows.len() > 0 {
        law_habits_unique(rows.drop_last());
        let (hs, cs) = load_habits(rows.drop_last());
        let row = rows.last();
        let id = str_of(cell_at(row, 0));
        if id.len() > 0 && !habit_ids(hs).contains(id) {
            let hs2 = hs.push(habit_of_row(row));
            assert forall|i: int, j: int| 0 <= i < j < hs2.len() implies hs2[i].id
                != hs2[j].id by {
                if j == hs.len() {
                    assert(habit_ids(hs)[i] == hs[i].id);
                }
            }
        }
    }
}

/// What a load gives back of a created habit: the habit itself, for a habit
/// whose optional texts are missing or not blank and whose check-in time is
/// its reminder (as every created habit's is).
pub proof fn law_habit_create_round_trip(h: HabitView)
    requires
        keeps_opt_text(h.frequency),
        keeps_opt_text(h.goal),
        keeps_opt_text(h.start_date),
        keeps_opt_text(h.duration),
        keeps_opt_text(h.group),
        keeps_opt_text(h.reminder),
        h.check_in_time == h.reminder,
    ensures
        habit_of_row(habit_insert_params(h)) == h,
{
    let row = habit_insert_params(h);
    assert(cell_at(row, 0) == Some(CellView::Text(h.id)));
    assert(cell_at(row, 1) == Some(CellView::Text(h.name)));
    assert(cell_at(row, 2) == Some(opt_text_view(h.frequency)));
    assert(cell_at(row, 3) == Some(opt_text_view(h.goal)));
    assert(cell_at(row, 4) == Some(opt_text_view(h.start_date)));
    assert(cell_at(row, 5) == Some(opt_text_view(h.duration)));
    assert(cell_at(row, 6) == Some(opt_text_view(h.group)));
    assert(cell_at(row, 7) == Some(opt_text_view(h.reminder)));
    assert(cell_at(row, 8) == Some(CellView::Integer(flag(h.auto_popup_log))));
    assert(cell_at(row, 9) == Some(CellView::Text(h.created_at)));
    assert(cell_at(row, 10) == Some(CellView::Text(h.updated_at)));
    crate::row::lemma_read_opt_text(h.frequency);
    crate::row::lemma_read_opt_text(h.goal);
    crate::row::lemma_read_opt_text(h.start_date);
    crate::row::lemma_read_opt_text(h.duration);
    crate::row::lemma_read_opt_text(h.group);
    crate::row::lemma_read_opt_text(h.reminder);
    crate::row::lemma_read_flag(h.auto_popup_log);
}

/// Every loaded check-in belongs to a loaded habit.
pub proof fn law_checkins_have_habits(rows: Seq<Seq<CellView>>)
    ensures
        forall|i: int|
            0 <= i < load_habits(rows).1.len() ==> habit_ids(load_habits(rows).0).contains(
                #[trigger] load_habits(rows).1[i].habit_id,
            ),
    decreases rows.len(),
{
    if rows.len() > 0 {
        law_checkins_have_habits(rows.drop_last());
        let (hs, cs) = load_habits(rows.drop_last());
        let row = rows.last();
        let id = str_of(cell_at(row, 0));
        if id.len() > 0 {
            let (hs2, cs2) = load_habits(rows);
            assert(habit_ids(hs2).contains(id)) by {
                if !habit_ids(hs).contains(id) {
                    assert(habit_ids(hs2)[hs.len() as int] == id);
                }
            }
            assert forall|i: int| 0 <= i < cs2.len() implies habit_ids(hs2).contains(
                #[trigger] cs2[i].habit_id,
            ) by {
                if i < cs.len() {
                    assert(cs2[i] == cs[i]);
                    let j = choose|j: int| 0 <= j < habit_ids(hs).len() && habit_ids(hs)[j] == cs[i].habit_id;
                    assert(habit_ids(hs2)[j] == habit_ids(hs)[j]);
                }
            }
        }
    }
}

/// Deleting a habit: its check-ins and it are marked deleted.
pub fn habit_delete(id: &str, now: &str) -> (r: Vec<Statement>)
    ensures
        statements_view(r@) == seq![
            (SOFT_DELETE_CHECKINS_OF_HABIT@, soft_delete_row(CellView::Text(now@), id@)),
            (SOFT_DELETE_HABIT@, soft_delete_row(CellView::Text(now@), id@)),
        ],
{
    let mut r: Vec<Statement> = Vec::new();
    r.push(statement(SOFT_DELETE_CHECKINS_OF_HABIT, soft_delete_params(&text_value(now), id)));
    r.push(statement(SOFT_DELETE_HABIT, soft_delete_params(&text_value(now), id)));
    assert(statements_view(r@) =~= seq![
        (SOFT_DELETE_CHECKINS_OF_HABIT@, soft_delete_row(CellView::Text(now@), id@)),
        (SOFT_DELETE_HABIT@, soft_delete_row(CellView::Text(now@), id@)),
    ]);
    r
}

} // verus!
