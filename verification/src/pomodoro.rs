use vstd::prelude::*;
use crate::row::{
    comma_list,
    bool_of, cell_at, flag, flag_value, i64_of, opt_str_of, opt_text_value, opt_text_view, str_of,
    soft_delete_params, soft_delete_row, statement, text_value, CellValue, CellView, Row, RowExt,
    Statement,
};
use crate::queries::{
    SELECT_FAVORITES, SELECT_RECORDS, SOFT_DELETE_ALL_RECORDS, SOFT_DELETE_FAVORITE, SOFT_DELETE_RECORD, UPSERT_FAVORITE, UPSERT_RECORD,
};
use crate::text::all_white;

verus! {

// ---------------------------------------------------------------------------
// Focus records and favourite focus tasks
// ---------------------------------------------------------------------------

/// What a focus session is linked to. It is stored as JSON text; turning that
/// text into a target and back is done where the JSON library is.
#[derive(Debug, Clone, PartialEq)]
pub struct LinkedTarget {
    pub target_type: String,
    pub id: String,
    pub title: String,
}

pub struct LinkedTargetView {
    pub target_type: Seq<char>,
    pub id: Seq<char>,
    pub title: Seq<char>,
}

impl View for LinkedTarget {
    type V = LinkedTargetView;

    open spec fn view(&self) -> LinkedTargetView {
        LinkedTargetView { target_type: self.target_type@, id: self.id@, title: self.title@ }
    }
}

pub open spec fn target_view(t: Option<LinkedTarget>) -> Option<LinkedTargetView> {
    match t {
        Some(x) => Some(x@),
        None => None,
    }
}

#[derive(Debug, Clone, PartialEq)]
pub struct PomodoroRecord {
    pub id: String,
    pub mode: String,
    pub phase: String,
    pub start_time: String,
    pub end_time: String,
    pub duration_minutes: i64,
    pub date: String,
    pub date_label: String,
    pub time_range_label: String,
    pub task_id: Option<String>,
    pub linked_target: Option<LinkedTarget>,
    pub created_at: String,
}

pub struct RecordView {
    pub id: Seq<char>,
    pub mode: Seq<char>,
    pub phase: Seq<char>,
    pub start_time: Seq<char>,
    pub end_time: Seq<char>,
    pub duration_minutes: i64,
    pub date: Seq<char>,
    pub date_label: Seq<char>,
    pub time_range_label: Seq<char>,
    pub task_id: Option<Seq<char>>,
    pub linked_target: Option<LinkedTargetView>,
    pub created_at: Seq<char>,
}

impl View for PomodoroRecord {
    type V = RecordView;

    open spec fn view(&self) -> RecordView {
        RecordView {
            id: self.id@,
            mode: self.mode@,
            phase: self.phase@,
            start_time: self.start_time@,
            end_time: self.end_time@,
            duration_minutes: self.duration_minutes,
            date: self.date@,
            date_label: self.date_label@,
            time_range_label: self.time_range_label@,
            task_id: self.task_id.deep_view(),
            linked_target: target_view(self.linked_target),
            created_at: self.created_at@,
        }
    }
}

#[derive(Debug, Clone, PartialEq)]
pub struct FavoriteFocusTask {
    pub id: String,
    pub name: String,
    pub icon: String,
    pub mode: String,
    pub duration_minutes: i64,
    pub accumulated_minutes: i64,
    pub linked_target: Option<LinkedTarget>,
    pub is_archived: bool,
    pub created_at: String,
}

pub struct FavoriteView {
    pub id: Seq<char>,
    pub name: Seq<char>,
    pub icon: Seq<char>,
    pub mode: Seq<char>,
    pub duration_minutes: i64,
    pub accumulated_minutes: i64,
    pub linked_target: Option<LinkedTargetView>,
    pub is_archived: bool,
    pub created_at: Seq<char>,
}

impl View for FavoriteFocusTask {
    type V = FavoriteView;

    open spec fn view(&self) -> FavoriteView {
        FavoriteView {
            id: self.id@,
            name: self.name@,
            icon: self.icon@,
            mode: self.mode@,
            duration_minutes: self.duration_minutes,
            accumulated_minutes: self.accumulated_minutes,
            linked_target: target_view(self.linked_target),
            is_archived: self.is_archived,
            created_at: self.created_at@,
        }
    }
}

/// Everything the focus page loads at once.
#[derive(Debug, Clone, PartialEq)]
pub struct PomodoroData {
    pub records: Vec<PomodoroRecord>,
    pub favorite_tasks: Vec<FavoriteFocusTask>,
}

// ---------------------------------------------------------------------------
// Reading rows
// ---------------------------------------------------------------------------

/// A record as a row `id, mode, phase, start_time, end_time,
/// duration_minutes, date, date_label, time_range_label, task_id,
/// linked_target, created_at` reads, with the target its JSON text gave.
pub open spec fn read_record(row: Seq<CellView>, target: Option<LinkedTargetView>) -> RecordView {
    RecordView {
        id: str_of(cell_at(row, 0)),
        mode: str_of(cell_at(row, 1)),
        phase: str_of(cell_at(row, 2)),
        start_time: str_of(cell_at(row, 3)),
        end_time: str_of(cell_at(row, 4)),
        duration_minutes: i64_of(cell_at(row, 5)),
        date: str_of(cell_at(row, 6)),
        date_label: str_of(cell_at(row, 7)),
        time_range_label: str_of(cell_at(row, 8)),
        task_id: opt_str_of(cell_at(row, 9)),
        linked_target: target,
        created_at: str_of(cell_at(row, 11)),
    }
}

/// The icon shown for a favourite: the stored one, a smiley when empty.
pub open spec fn icon_or_default(icon: Seq<char>) -> Seq<char> {
    if icon.len() == 0 {
        "😊"@
    } else {
        icon
    }
}

/// The session length of a favourite: the stored one, 25 minutes when 0.
pub open spec fn duration_or_default(d: i64) -> i64 {
    if d == 0 {
        25
    } else {
        d
    }
}

/// A favourite as a row `id, name, icon, mode, duration_minutes,
/// accumulated_minutes, linked_target, is_archived, created_at` reads, with
/// the target its JSON text gave.
pub open spec fn read_favorite(row: Seq<CellView>, target: Option<LinkedTargetView>) -> FavoriteView {
    FavoriteView {
        id: str_of(cell_at(row, 0)),
        name: str_of(cell_at(row, 1)),
        icon: icon_or_default(str_of(cell_at(row, 2))),
        mode: str_of(cell_at(row, 3)),
        duration_minutes: duration_or_default(i64_of(cell_at(row, 4))),
        accumulated_minutes: i64_of(cell_at(row, 5)),
        linked_target: target,
        is_archived: bool_of(cell_at(row, 7)),
        created_at: str_of(cell_at(row, 8)),
    }
}

impl PomodoroRecord {
    /// The JSON text of a record row's linked target (column 10), if any.
    pub fn linked_target_text(row: &Row) -> (r: Option<String>)
        ensures
            r.deep_view() == opt_str_of(cell_at(row@, 10)),
    {
        row.parse_opt_str(10)
    }

    /// The record a row reads as, given the target its JSON text parsed to
    /// (none where there was no text or it did not parse).
    pub fn from_row(row: &Row, linked_target: Option<LinkedTarget>) -> (r: PomodoroRecord)
        ensures
            r@ == read_record(row@, target_view(linked_target)),
    {
        PomodoroRecord {
            id: row.parse_str(0),
            mode: row.parse_str(1),
            phase: row.parse_str(2),
            start_time: row.parse_str(3),
            end_time: row.parse_str(4),
            duration_minutes: row.parse_i64(5),
            date: row.parse_str(6),
            date_label: row.parse_str(7),
            time_range_label: row.parse_str(8),
            task_id: row.parse_opt_str(9),
            linked_target,
            created_at: row.parse_str(11),
        }
    }
}

impl FavoriteFocusTask {
    /// The JSON text of a favourite row's linked target (column 6), if any.
    pub fn linked_target_text(row: &Row) -> (r: Option<String>)
        ensures
            r.deep_view() == opt_str_of(cell_at(row@, 6)),
    {
        row.parse_opt_str(6)
    }

    /// The favourite a row reads as, given the target its JSON text parsed to.
    pub fn from_row(row: &Row, linked_target: Option<LinkedTarget>) -> (r: FavoriteFocusTask)
        ensures
            r@ == read_favorite(row@, target_view(linked_target)),
    {
        let icon_val = row.parse_str(2);
        let duration = row.parse_i64(4);
        FavoriteFocusTask {
            id: row.parse_str(0),
            name: row.parse_str(1),
            icon: if icon_val.as_str().is_empty() {
                "😊".to_string()
            } else {
                icon_val
            },
            mode: row.parse_str(3),
            duration_minutes: if duration == 0 {
                25
            } else {
                duration
            },
            accumulated_minutes: row.parse_i64(5),
            linked_target,
            is_archived: row.parse_bool(7),
            created_at: row.parse_str(8),
        }
    }
}

pub open spec fn records_view(v: Seq<PomodoroRecord>) -> Seq<RecordView> {
    v.map_values(|r: PomodoroRecord| r@)
}

pub open spec fn favorites_view(v: Seq<FavoriteFocusTask>) -> Seq<FavoriteView> {
    v.map_values(|f: FavoriteFocusTask| f@)
}

/// The records of rows, each with the target its JSON text parsed to.
pub open spec fn read_records(rows: Seq<(Row, Option<LinkedTarget>)>) -> Seq<RecordView> {
    rows.map_values(|p: (Row, Option<LinkedTarget>)| read_record(p.0@, target_view(p.1)))
}

/// The favourites of rows, each with the target its JSON text parsed to.
pub open spec fn read_favorites(rows: Seq<(Row, Option<LinkedTarget>)>) -> Seq<FavoriteView> {
    rows.map_values(|p: (Row, Option<LinkedTarget>)| read_favorite(p.0@, target_view(p.1)))
}

/// The focus page's data: every record row and every favourite row, in
/// order, each paired with its parsed target.
pub fn pomodoro_load_all(
    records: Vec<(Row, Option<LinkedTarget>)>,
    favorites: Vec<(Row, Option<LinkedTarget>)>,
) -> (d: PomodoroData)
    ensures
        records_view(d.records@) == read_records(records@),
        favorites_view(d.favorite_tasks@) == read_favorites(favorites@),
{
    let mut out_records: Vec<PomodoroRecord> = Vec::new();
    let mut i: usize = 0;
    let ghost all_records = records@;
    while i < records.len()
        invariant
            records@ == all_records,
            i <= records@.len(),
            records_view(out_records@) == read_records(all_records.take(i as int)),
        decreases records.len() - i,
    {
        let r = PomodoroRecord::from_row(&records[i].0, clone_target(&records[i].1));
        let ghost before = records_view(out_records@);
        out_records.push(r);
        assert(records_view(out_records@) =~= before.push(
            read_record(all_records[i as int].0@, target_view(all_records[i as int].1)),
        ));
        assert(read_records(all_records.take(i + 1)) =~= read_records(all_records.take(i as int)).push(
            read_record(all_records[i as int].0@, target_view(all_records[i as int].1)),
        ));
        i = i + 1;
    }
    assert(all_records.take(all_records.len() as int) =~= all_records);
    let mut out_favorites: Vec<FavoriteFocusTask> = Vec::new();
    let mut k: usize = 0;
    let ghost all_favorites = favorites@;
    while k < favorites.len()
        invariant
            favorites@ == all_favorites,
            k <= favorites@.len(),
            favorites_view(out_favorites@) == read_favorites(all_favorites.take(k as int)),
        decreases favorites.len() - k,
    {
        let f = FavoriteFocusTask::from_row(&favorites[k].0, clone_target(&favorites[k].1));
        let ghost before = favorites_view(out_favorites@);
        out_favorites.push(f);
        assert(favorites_view(out_favorites@) =~= before.push(
            read_favorite(all_favorites[k as int].0@, target_view(all_favorites[k as int].1)),
        ));
        assert(read_favorites(all_favorites.take(k + 1)) =~= read_favorites(
            all_favorites.take(k as int),
        ).push(read_favorite(all_favorites[k as int].0@, target_view(all_favorites[k as int].1))));
        k = k + 1;
    }
    assert(all_favorites.take(all_favorites.len() as int) =~= all_favorites);
    PomodoroData { records: out_records, favorite_tasks: out_favorites }
}

fn clone_target(t: &Option<LinkedTarget>) -> (r: Option<LinkedTarget>)
    ensures
        target_view(r) == target_view(*t),
{
    match t {
        Some(x) => Some(
            LinkedTarget {
                target_type: x.target_type.clone(),
                id: x.id.clone(),
                title: x.title.clone(),
            },
        ),
        None => None,
    }
}

// ---------------------------------------------------------------------------
// Writing
// ---------------------------------------------------------------------------

/// The values a record upsert binds: the record's columns in the order they
/// are read, its target's JSON text in the target's place, then the time of
/// the write.
pub open spec fn record_params(r: RecordView, target_json: Option<Seq<char>>, now: Seq<char>) -> Seq<
    CellView,
> {
    seq![
        CellView::Text(r.id),
        CellView::Text(r.mode),
        CellView::Text(r.phase),
        CellView::Text(r.start_time),
        CellView::Text(r.end_time),
        CellView::Integer(r.duration_minutes),
        CellView::Text(r.date),
        CellView::Text(r.date_label),
        CellView::Text(r.time_range_label),
        opt_text_view(r.task_id),
        opt_text_view(target_json),
        CellView::Text(r.created_at),
        CellView::Text(now),
    ]
}

/// The values a favourite upsert binds, in the order its columns are read,
/// then the time of the write.
pub open spec fn favorite_params(
    f: FavoriteView,
    target_json: Option<Seq<char>>,
    now: Seq<char>,
) -> Seq<CellView> {
    seq![
        CellView::Text(f.id),
        CellView::Text(f.name),
        CellView::Text(f.icon),
        CellView::Text(f.mode),
        CellView::Integer(f.duration_minutes),
        CellView::Integer(f.accumulated_minutes),
        opt_text_view(target_json),
        CellView::Integer(flag(f.is_archived)),
        CellView::Text(f.created_at),
        CellView::Text(now),
    ]
}

/// The values `pomodoro_upsert_record` binds, given the JSON text of the
/// record's target.
pub fn pomodoro_upsert_record(r: &PomodoroRecord, target_json: &Option<String>, now: &str) -> (p: Row)
    ensures
        p@ == record_params(r@, target_json.deep_view(), now@),
{
    let mut cells: Vec<CellValue> = Vec::new();
    cells.push(text_value(r.id.as_str()));
    cells.push(text_value(r.mode.as_str()));
    cells.push(text_value(r.phase.as_str()));
    cells.push(text_value(r.start_time.as_str()));
    cells.push(text_value(r.end_time.as_str()));
    cells.push(CellValue::Integer(r.duration_minutes));
    cells.push(text_value(r.date.as_str()));
    cells.push(text_value(r.date_label.as_str()));
    cells.push(text_value(r.time_range_label.as_str()));
    cells.push(opt_text_value(&r.task_id));
    cells.push(opt_text_value(target_json));
    cells.push(text_value(r.created_at.as_str()));
    cells.push(text_value(now));
    let p = Row { cells };
    assert(p@ =~= record_params(r@, target_json.deep_view(), now@));
    p
}

/// The values `pomodoro_upsert_favorite` binds, given the JSON text of the
/// favourite's target.
pub fn pomodoro_upsert_favorite(
    f: &FavoriteFocusTask,
    target_json: &Option<String>,
    now: &str,
) -> (p: Row)
    ensures
        p@ == favorite_params(f@, target_json.deep_view(), now@),
{
    let mut cells: Vec<CellValue> = Vec::new();
    cells.push(text_value(f.id.as_str()));
    cells.push(text_value(f.name.as_str()));
    cells.push(text_value(f.icon.as_str()));
    cells.push(text_value(f.mode.as_str()));
    cells.push(CellValue::Integer(f.duration_minutes));
    cells.push(CellValue::Integer(f.accumulated_minutes));
    cells.push(opt_text_value(target_json));
    cells.push(flag_value(f.is_archived));
    cells.push(text_value(f.created_at.as_str()));
    cells.push(text_value(now));
    let p = Row { cells };
    assert(p@ =~= favorite_params(f@, target_json.deep_view(), now@));
    p
}

// ---------------------------------------------------------------------------
// Laws
// ---------------------------------------------------------------------------

/// What a load gives back of an upserted record: the record itself, its
/// target being what its stored JSON text parses back to, for a record whose
/// task id is missing or not blank.
pub proof fn law_record_round_trip(
    r: RecordView,
    target_json: Option<Seq<char>>,
    now: Seq<char>,
)
    requires
        r.task_id matches Some(t) ==> !all_white(t),
    ensures
        read_record(record_params(r, target_json, now).take(12), r.linked_target) == r,
{
    let row = record_params(r, target_json, now).take(12);
    assert(cell_at(row, 0) == Some(CellView::Text(r.id)));
    assert(cell_at(row, 1) == Some(CellView::Text(r.mode)));
    assert(cell_at(row, 2) == Some(CellView::Text(r.phase)));
    assert(cell_at(row, 3) == Some(CellView::Text(r.start_time)));
    assert(cell_at(row, 4) == Some(CellView::Text(r.end_time)));
    assert(cell_at(row, 5) == Some(CellView::Integer(r.duration_minutes)));
    assert(cell_at(row, 6) == Some(CellView::Text(r.date)));
    assert(cell_at(row, 7) == Some(CellView::Text(r.date_label)));
    assert(cell_at(row, 8) == Some(CellView::Text(r.time_range_label)));
    assert(cell_at(row, 9) == Some(opt_text_view(r.task_id)));
    assert(cell_at(row, 11) == Some(CellView::Text(r.created_at)));
    crate::row::lemma_read_opt_text(r.task_id);
}

/// What a load gives back of an upserted favourite: the favourite itself,
/// for one with an icon and a non-zero session length (an empty icon reads
/// back as the smiley, a zero length as 25 minutes).
pub proof fn law_favorite_round_trip(
    f: FavoriteView,
    target_json: Option<Seq<char>>,
    now: Seq<char>,
)
    requires
        f.icon.len() > 0,
        f.duration_minutes != 0,
    ensures
        read_favorite(favorite_params(f, target_json, now).take(9), f.linked_target) == f,
{
    let row = favorite_params(f, target_json, now).take(9);
    assert(cell_at(row, 0) == Some(CellView::Text(f.id)));
    assert(cell_at(row, 1) == Some(CellView::Text(f.name)));
    assert(cell_at(row, 2) == Some(CellView::Text(f.icon)));
    assert(cell_at(row, 3) == Some(CellView::Text(f.mode)));
    assert(cell_at(row, 4) == Some(CellView::Integer(f.duration_minutes)));
    assert(cell_at(row, 5) == Some(CellView::Integer(f.accumulated_minutes)));
    assert(cell_at(row, 7) == Some(CellView::Integer(flag(f.is_archived))));
    assert(cell_at(row, 8) == Some(CellView::Text(f.created_at)));
    crate::row::lemma_read_flag(f.is_archived);
}

/// A favourite always shows an icon and has a session length.
pub proof fn law_favorite_defaults(row: Seq<CellView>, target: Option<LinkedTargetView>)
    ensures
        read_favorite(row, target).icon.len() > 0,
        read_favorite(row, target).duration_minutes != 0,
{
    reveal_strlit("😊");
}

// ---------------------------------------------------------------------------
// Deleting
// ---------------------------------------------------------------------------

/// Deleting a record: it is marked deleted.
pub fn pomodoro_delete_record(id: &str, now: &str) -> (r: Statement)
    ensures
        r.sql@ == SOFT_DELETE_RECORD@,
        r.params@ == soft_delete_row(CellView::Text(now@), id@),
{
    statement(SOFT_DELETE_RECORD, soft_delete_params(&text_value(now), id))
}

/// Clearing the records: every live record is marked deleted.
pub fn pomodoro_clear_all_records(now: &str) -> (r: Statement)
    ensures
        r.sql@ == SOFT_DELETE_ALL_RECORDS@,
        r.params@ == seq![CellView::Text(now@), CellView::Text(now@)],
{
    let mut cells: Vec<CellValue> = Vec::new();
    cells.push(text_value(now));
    cells.push(text_value(now));
    let p = Row { cells };
    assert(p@ =~= seq![CellView::Text(now@), CellView::Text(now@)]);
    statement(SOFT_DELETE_ALL_RECORDS, p)
}

/// Deleting a favourite: it is marked deleted.
pub fn pomodoro_delete_favorite(id: &str, now: &str) -> (r: Statement)
    ensures
        r.sql@ == SOFT_DELETE_FAVORITE@,
        r.params@ == soft_delete_row(CellView::Text(now@), id@),
{
    statement(SOFT_DELETE_FAVORITE, soft_delete_params(&text_value(now), id))
}

/// The columns of a record, in the order the record query selects them and
/// the upsert names them (the upsert adds `updated_at`).
pub open spec fn record_columns() -> Seq<Seq<char>> {
    seq![
        "id"@,
        "mode"@,
        "phase"@,
        "start_time"@,
        "end_time"@,
        "duration_minutes"@,
        "date"@,
        "date_label"@,
        "time_range_label"@,
        "task_id"@,
        "linked_target"@,
        "created_at"@,
    ]
}

/// The record query and upsert name the columns `record_columns` lists, in
/// that order, and the upsert binds `?k` to its `k`-th column.
pub proof fn law_record_queries_name_the_columns()
    ensures
        SELECT_RECORDS@ == "SELECT "@ + comma_list(record_columns())
            + " FROM pomodoro_records WHERE deleted_at IS NULL ORDER BY start_time DESC"@,
        ("INSERT INTO pomodoro_records ("@ + comma_list(record_columns().push("updated_at"@))
            + ") VALUES (?1, ?2, ?3, ?4, ?5, ?6, ?7, ?8, ?9, ?10, ?11, ?12, ?13)"@).is_prefix_of(
            UPSERT_RECORD@,
        ),
{
    reveal_with_fuel(comma_list, 14);
    reveal_strlit("SELECT id, mode, phase, start_time, end_time, duration_minutes, date, date_label, time_range_label, task_id, linked_target, created_at FROM pomodoro_records WHERE deleted_at IS NULL ORDER BY start_time DESC");
    reveal_strlit("INSERT INTO pomodoro_records (id, mode, phase, start_time, end_time, duration_minutes, date, date_label, time_range_label, task_id, linked_target, created_at, updated_at) VALUES (?1, ?2, ?3, ?4, ?5, ?6, ?7, ?8, ?9, ?10, ?11, ?12, ?13) ON CONFLICT(id) DO UPDATE SET mode = excluded.mode, phase = excluded.phase, start_time = excluded.start_time, end_time = excluded.end_time, duration_minutes = excluded.duration_minutes, date = excluded.date, date_label = excluded.date_label, time_range_label = excluded.time_range_label, task_id = excluded.task_id, linked_target = excluded.linked_target, updated_at = excluded.updated_at");
    reveal_strlit("SELECT ");
    reveal_strlit(" FROM pomodoro_records WHERE deleted_at IS NULL ORDER BY start_time DESC");
    reveal_strlit("INSERT INTO pomodoro_records (");
    reveal_strlit(") VALUES (?1, ?2, ?3, ?4, ?5, ?6, ?7, ?8, ?9, ?10, ?11, ?12, ?13)");
    reveal_strlit(", ");
    reveal_record_names();
    reveal_strlit("updated_at");
    assert(SELECT_RECORDS@ =~= "SELECT "@ + comma_list(record_columns())
        + " FROM pomodoro_records WHERE deleted_at IS NULL ORDER BY start_time DESC"@);
    let pre = "INSERT INTO pomodoro_records ("@ + comma_list(record_columns().push("updated_at"@))
        + ") VALUES (?1, ?2, ?3, ?4, ?5, ?6, ?7, ?8, ?9, ?10, ?11, ?12, ?13)"@;
    assert(pre =~= UPSERT_RECORD@.take(pre.len() as int));
}

proof fn reveal_record_names()
    ensures
        record_columns() == seq![
            seq!['i', 'd'],
            seq!['m', 'o', 'd', 'e'],
            seq!['p', 'h', 'a', 's', 'e'],
            seq!['s', 't', 'a', 'r', 't', '_', 't', 'i', 'm', 'e'],
            seq!['e', 'n', 'd', '_', 't', 'i', 'm', 'e'],
            seq!['d', 'u', 'r', 'a', 't', 'i', 'o', 'n', '_', 'm', 'i', 'n', 'u', 't', 'e', 's'],
            seq!['d', 'a', 't', 'e'],
            seq!['d', 'a', 't', 'e', '_', 'l', 'a', 'b', 'e', 'l'],
            seq!['t', 'i', 'm', 'e', '_', 'r', 'a', 'n', 'g', 'e', '_', 'l', 'a', 'b', 'e', 'l'],
            seq!['t', 'a', 's', 'k', '_', 'i', 'd'],
            seq!['l', 'i', 'n', 'k', 'e', 'd', '_', 't', 'a', 'r', 'g', 'e', 't'],
            seq!['c', 'r', 'e', 'a', 't', 'e', 'd', '_', 'a', 't'],
        ],
{
    reveal_strlit("id");
    reveal_strlit("mode");
    reveal_strlit("phase");
    reveal_strlit("start_time");
    reveal_strlit("end_time");
    reveal_strlit("duration_minutes");
    reveal_strlit("date");
    reveal_strlit("date_label");
    reveal_strlit("time_range_label");
    reveal_strlit("task_id");
    reveal_strlit("linked_target");
    reveal_strlit("created_at");
    assert(record_columns() =~~= seq![
        seq!['i', 'd'],
        seq!['m', 'o', 'd', 'e'],
        seq!['p', 'h', 'a', 's', 'e'],
        seq!['s', 't', 'a', 'r', 't', '_', 't', 'i', 'm', 'e'],
        seq!['e', 'n', 'd', '_', 't', 'i', 'm', 'e'],
        seq!['d', 'u', 'r', 'a', 't', 'i', 'o', 'n', '_', 'm', 'i', 'n', 'u', 't', 'e', 's'],
        seq!['d', 'a', 't', 'e'],
        seq!['d', 'a', 't', 'e', '_', 'l', 'a', 'b', 'e', 'l'],
        seq!['t', 'i', 'm', 'e', '_', 'r', 'a', 'n', 'g', 'e', '_', 'l', 'a', 'b', 'e', 'l'],
        seq!['t', 'a', 's', 'k', '_', 'i', 'd'],
        seq!['l', 'i', 'n', 'k', 'e', 'd', '_', 't', 'a', 'r', 'g', 'e', 't'],
        seq!['c', 'r', 'e', 'a', 't', 'e', 'd', '_', 'a', 't'],
    ]);
}

/// Each field of a record is read from the column the record query names
/// for it, and the upsert binds it where the upsert names that column: the
/// field `f` is the column at the place of `f` in `record_columns`, which
/// `law_record_queries_name_the_columns` ties to the queries' text.
pub proof fn law_record_fields_follow_column_names(
    row: Seq<CellView>,
    target: Option<LinkedTargetView>,
    r: RecordView,
    target_json: Option<Seq<char>>,
    now: Seq<char>,
)
    ensures
        record_columns()[0] == "id"@ && read_record(row, target).id == str_of(cell_at(row, 0))
            && record_params(r, target_json, now)[0] == CellView::Text(r.id),
        record_columns()[1] == "mode"@ && read_record(row, target).mode == str_of(cell_at(row, 1))
            && record_params(r, target_json, now)[1] == CellView::Text(r.mode),
        record_columns()[2] == "phase"@ && read_record(row, target).phase == str_of(cell_at(row, 2))
            && record_params(r, target_json, now)[2] == CellView::Text(r.phase),
        record_columns()[3] == "start_time"@ && read_record(row, target).start_time == str_of(cell_at(row, 3))
            && record_params(r, target_json, now)[3] == CellView::Text(r.start_time),
        record_columns()[4] == "end_time"@ && read_record(row, target).end_time == str_of(cell_at(row, 4))
            && record_params(r, target_json, now)[4] == CellView::Text(r.end_time),
        record_columns()[5] == "duration_minutes"@ && read_record(row, target).duration_minutes == i64_of(cell_at(row, 5))
            && record_params(r, target_json, now)[5] == CellView::Integer(r.duration_minutes),
        record_columns()[6] == "date"@ && read_record(row, target).date == str_of(cell_at(row, 6))
            && record_params(r, target_json, now)[6] == CellView::Text(r.date),
        record_columns()[7] == "date_label"@ && read_record(row, target).date_label == str_of(cell_at(row, 7))
            && record_params(r, target_json, now)[7] == CellView::Text(r.date_label),
        record_columns()[8] == "time_range_label"@ && read_record(row, target).time_range_label == str_of(cell_at(row, 8))
            && record_params(r, target_json, now)[8] == CellView::Text(r.time_range_label),
        record_columns()[9] == "task_id"@ && read_record(row, target).task_id == opt_str_of(cell_at(row, 9))
            && record_params(r, target_json, now)[9] == opt_text_view(r.task_id),
        record_columns()[11] == "created_at"@ && read_record(row, target).created_at == str_of(cell_at(row, 11))
            && record_params(r, target_json, now)[11] == CellView::Text(r.created_at),
{
    reveal_record_names();
    reveal_strlit("id");
    reveal_strlit("mode");
    reveal_strlit("phase");
    reveal_strlit("start_time");
    reveal_strlit("end_time");
    reveal_strlit("duration_minutes");
    reveal_strlit("date");
    reveal_strlit("date_label");
    reveal_strlit("time_range_label");
    reveal_strlit("task_id");
    reveal_strlit("created_at");
}

/// The columns of a favourite, in the order its query selects them and its
/// upsert names them (the upsert may add `updated_at`).
pub open spec fn favorite_columns() -> Seq<Seq<char>> {
    seq!["id"@, "name"@, "icon"@, "mode"@, "duration_minutes"@, "accumulated_minutes"@, "linked_target"@, "is_archived"@, "created_at"@]
}

proof fn reveal_favorite_columns()
    ensures
        favorite_columns() == seq![seq!['i', 'd'], seq!['n', 'a', 'm', 'e'], seq!['i', 'c', 'o', 'n'], seq!['m', 'o', 'd', 'e'], seq!['d', 'u', 'r', 'a', 't', 'i', 'o', 'n', '_', 'm', 'i', 'n', 'u', 't', 'e', 's'], seq!['a', 'c', 'c', 'u', 'm', 'u', 'l', 'a', 't', 'e', 'd', '_', 'm', 'i', 'n', 'u', 't', 'e', 's'], seq!['l', 'i', 'n', 'k', 'e', 'd', '_', 't', 'a', 'r', 'g', 'e', 't'], seq!['i', 's', '_', 'a', 'r', 'c', 'h', 'i', 'v', 'e', 'd'], seq!['c', 'r', 'e', 'a', 't', 'e', 'd', '_', 'a', 't']],
{
    reveal_strlit("id");
    reveal_strlit("name");
    reveal_strlit("icon");
    reveal_strlit("mode");
    reveal_strlit("duration_minutes");
    reveal_strlit("accumulated_minutes");
    reveal_strlit("linked_target");
    reveal_strlit("is_archived");
    reveal_strlit("created_at");
    assert(favorite_columns() =~~= seq![seq!['i', 'd'], seq!['n', 'a', 'm', 'e'], seq!['i', 'c', 'o', 'n'], seq!['m', 'o', 'd', 'e'], seq!['d', 'u', 'r', 'a', 't', 'i', 'o', 'n', '_', 'm', 'i', 'n', 'u', 't', 'e', 's'], seq!['a', 'c', 'c', 'u', 'm', 'u', 'l', 'a', 't', 'e', 'd', '_', 'm', 'i', 'n', 'u', 't', 'e', 's'], seq!['l', 'i', 'n', 'k', 'e', 'd', '_', 't', 'a', 'r', 'g', 'e', 't'], seq!['i', 's', '_', 'a', 'r', 'c', 'h', 'i', 'v', 'e', 'd'], seq!['c', 'r', 'e', 'a', 't', 'e', 'd', '_', 'a', 't']]);
}

/// The favourite query and upsert name the columns `favorite_columns` lists, in
/// that order, and the upsert binds `?k` to its `k`-th column.
pub proof fn law_favorite_queries_name_the_columns()
    ensures
        SELECT_FAVORITES@ == "SELECT "@ + comma_list(favorite_columns()) + " FROM pomodoro_favorites WHERE deleted_at IS NULL ORDER BY created_at DESC"@,
        ("INSERT INTO pomodoro_favorites ("@ + comma_list(favorite_columns().push("updated_at"@))
            + ") VALUES (?1, ?2, ?3, ?4, ?5, ?6, ?7, ?8, ?9, ?10)"@).is_prefix_of(UPSERT_FAVORITE@),
{
    reveal_with_fuel(comma_list, 12);
    reveal_strlit("SELECT id, name, icon, mode, duration_minutes, accumulated_minutes, linked_target, is_archived, created_at FROM pomodoro_favorites WHERE deleted_at IS NULL ORDER BY created_at DESC");
    reveal_strlit("INSERT INTO pomodoro_favorites (id, name, icon, mode, duration_minutes, accumulated_minutes, linked_target, is_archived, created_at, updated_at) VALUES (?1, ?2, ?3, ?4, ?5, ?6, ?7, ?8, ?9, ?10) ON CONFLICT(id) DO UPDATE SET name = excluded.name, icon = excluded.icon, mode = excluded.mode, duration_minutes = excluded.duration_minutes, accumulated_minutes = excluded.accumulated_minutes, linked_target = excluded.linked_target, is_archived = excluded.is_archived, updated_at = excluded.updated_at");
    reveal_strlit("SELECT ");
    reveal_strlit(" FROM pomodoro_favorites WHERE deleted_at IS NULL ORDER BY created_at DESC");
    reveal_strlit("INSERT INTO pomodoro_favorites (");
    reveal_strlit(") VALUES (?1, ?2, ?3, ?4, ?5, ?6, ?7, ?8, ?9, ?10)");
    reveal_strlit(", ");
    reveal_strlit("updated_at");
    reveal_favorite_columns();
    assert(SELECT_FAVORITES@ =~= "SELECT "@ + comma_list(favorite_columns()) + " FROM pomodoro_favorites WHERE deleted_at IS NULL ORDER BY created_at DESC"@);
    let pre = "INSERT INTO pomodoro_favorites ("@ + comma_list(favorite_columns().push("updated_at"@))
        + ") VALUES (?1, ?2, ?3, ?4, ?5, ?6, ?7, ?8, ?9, ?10)"@;
    assert(pre =~= UPSERT_FAVORITE@.take(pre.len() as int));
}

/// Each field of a favourite is read from the column its query names for it,
/// and its upsert binds it where the upsert names that column.
pub proof fn law_favorite_fields_follow_column_names(
    row: Seq<CellView>,
    target: Option<LinkedTargetView>,
    f: FavoriteView,
    target_json: Option<Seq<char>>,
    now: Seq<char>,
)
    ensures
        favorite_columns()[0] == "id"@ && read_favorite(row, target).id == str_of(cell_at(row, 0))
            && favorite_params(f, target_json, now)[0] == CellView::Text(f.id),
        favorite_columns()[1] == "name"@ && read_favorite(row, target).name == str_of(cell_at(row, 1))
            && favorite_params(f, target_json, now)[1] == CellView::Text(f.name),
        favorite_columns()[2] == "icon"@ && read_favorite(row, target).icon == icon_or_default(str_of(cell_at(row, 2)))
            && favorite_params(f, target_json, now)[2] == CellView::Text(f.icon),
        favorite_columns()[3] == "mode"@ && read_favorite(row, target).mode == str_of(cell_at(row, 3))
            && favorite_params(f, target_json, now)[3] == CellView::Text(f.mode),
        favorite_columns()[4] == "duration_minutes"@ && read_favorite(row, target).duration_minutes == duration_or_default(i64_of(cell_at(row, 4)))
            && favorite_params(f, target_json, now)[4] == CellView::Integer(f.duration_minutes),
        favorite_columns()[5] == "accumulated_minutes"@ && read_favorite(row, target).accumulated_minutes == i64_of(cell_at(row, 5))
            && favorite_params(f, target_json, now)[5] == CellView::Integer(f.accumulated_minutes),
        favorite_columns()[6] == "linked_target"@ && favorite_params(f, target_json, now)[6] == opt_text_view(target_json),
        favorite_columns()[7] == "is_archived"@ && read_favorite(row, target).is_archived == bool_of(cell_at(row, 7))
            && favorite_params(f, target_json, now)[7] == CellView::Integer(flag(f.is_archived)),
        favorite_columns()[8] == "created_at"@ && read_favorite(row, target).created_at == str_of(cell_at(row, 8))
            && favorite_params(f, target_json, now)[8] == CellView::Text(f.created_at),
{
    reveal_favorite_columns();
    reveal_strlit("id");
    reveal_strlit("name");
    reveal_strlit("icon");
    reveal_strlit("mode");
    reveal_strlit("duration_minutes");
    reveal_strlit("accumulated_minutes");
    reveal_strlit("linked_target");
    reveal_strlit("is_archived");
    reveal_strlit("created_at");
}

} // verus!
