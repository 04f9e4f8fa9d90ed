use vstd::prelude::*;
use crate::clock::{millis_in_range, timestamp_in_range};
use crate::list::{read_note, ListNoteView};
use crate::text::all_white;
use crate::queries::{IMPORT_FOLDER, IMPORT_LIST, IMPORT_NOTE};
use crate::row::{
    comma_list, flag, flag_value, opt_text_value, opt_text_view, text_value, CellValue, CellView, Row,
};

verus! {

// ---------------------------------------------------------------------------
// One-shot import of the lists kept in the browser's local storage. Every
// insert is INSERT OR IGNORE, so running the import again changes nothing.
// ---------------------------------------------------------------------------

#[derive(Debug, Clone, PartialEq)]
pub struct MigrationFolder {
    pub id: String,
    pub name: String,
    pub is_pinned: Option<bool>,
    pub sort_order: Option<i32>,
}

#[derive(Debug, Clone, PartialEq)]
pub struct MigrationList {
    pub id: String,
    pub name: String,
    pub icon: Option<String>,
    pub color: Option<String>,
    pub view_type: Option<String>,
    pub folder_id: Option<String>,
    pub is_pinned: Option<bool>,
    pub sort_order: Option<i32>,
    pub item_count: Option<i32>,
}

#[derive(Debug, Clone, PartialEq)]
pub struct MigrationNoteGroup {
    pub id: String,
    pub list_id: String,
    pub name: String,
    pub sort_order: Option<i32>,
}

#[derive(Debug, Clone, PartialEq)]
pub struct MigrationNote {
    pub id: String,
    pub list_id: String,
    pub group_id: Option<String>,
    pub title: Option<String>,
    pub content: Option<String>,
    pub is_pinned: Option<bool>,
    pub sort_order: Option<i32>,
    pub created_at: Option<i64>,
    pub updated_at: Option<i64>,
}

#[derive(Debug, Clone, PartialEq)]
pub struct MigrationTemplate {
    pub id: String,
    pub name: String,
    pub content: Option<String>,
}

/// Everything the browser kept.
#[derive(Debug, Clone, PartialEq)]
pub struct MigrationData {
    pub folders: Vec<MigrationFolder>,
    pub lists: Vec<MigrationList>,
    pub note_groups: Vec<MigrationNoteGroup>,
    pub notes: Vec<MigrationNote>,
    pub templates: Vec<MigrationTemplate>,
}

pub open spec fn or_false(b: Option<bool>) -> bool {
    match b {
        Some(x) => x,
        None => false,
    }
}

pub open spec fn or_zero(n: Option<i32>) -> i64 {
    match n {
        Some(x) => x as i64,
        None => 0,
    }
}

pub open spec fn or_text(s: Option<String>, default: Seq<char>) -> Seq<char> {
    match s {
        Some(x) => x@,
        None => default,
    }
}

/// A note's timestamp as stored, in UNIX milliseconds: its own (0 when
/// missing), or `now_ms` when chrono's calendar does not hold it.
pub open spec fn stamp_ms(ms: Option<i64>, now_ms: i64) -> i64 {
    let m = match ms {
        Some(m) => m,
        None => 0,
    };
    if millis_in_range(m) {
        m
    } else {
        now_ms
    }
}

/// The values the insert of a folder binds.
pub open spec fn folder_insert(f: MigrationFolder, now: Seq<char>) -> Seq<CellView> {
    seq![
        CellView::Text(f.id@),
        CellView::Text(f.name@),
        CellView::Integer(flag(or_false(f.is_pinned))),
        CellView::Integer(or_zero(f.sort_order)),
        CellView::Text(now),
        CellView::Text(now),
    ]
}

/// The values the insert of a list binds; a missing colour is black and a
/// missing view a plain list.
pub open spec fn list_insert(l: MigrationList, now: Seq<char>) -> Seq<CellView> {
    seq![
        CellView::Text(l.id@),
        CellView::Text(l.name@),
        CellView::Text(or_text(l.icon, Seq::empty())),
        CellView::Text(or_text(l.color, "#000000"@)),
        CellView::Text(or_text(l.view_type, "list"@)),
        opt_text_view(l.folder_id.deep_view()),
        CellView::Integer(flag(or_false(l.is_pinned))),
        CellView::Integer(or_zero(l.sort_order)),
        CellView::Text(now),
        CellView::Text(now),
    ]
}

pub open spec fn group_insert(g: MigrationNoteGroup, now: Seq<char>) -> Seq<CellView> {
    seq![
        CellView::Text(g.id@),
        CellView::Text(g.list_id@),
        CellView::Text(g.name@),
        CellView::Integer(or_zero(g.sort_order)),
        CellView::Text(now),
        CellView::Text(now),
    ]
}

pub open spec fn note_insert(n: MigrationNote, now_ms: i64) -> Seq<CellView> {
    seq![
        CellView::Text(n.id@),
        CellView::Text(n.list_id@),
        opt_text_view(n.group_id.deep_view()),
        CellView::Text(or_text(n.title, Seq::empty())),
        CellView::Text(or_text(n.content, Seq::empty())),
        CellView::Integer(flag(or_false(n.is_pinned))),
        CellView::Integer(or_zero(n.sort_order)),
        CellView::Integer(stamp_ms(n.created_at, now_ms)),
        CellView::Integer(stamp_ms(n.updated_at, now_ms)),
    ]
}

pub open spec fn template_insert(t: MigrationTemplate, now: Seq<char>) -> Seq<CellView> {
    seq![
        CellView::Text(t.id@),
        CellView::Text(t.name@),
        CellView::Text(or_text(t.content, Seq::empty())),
        CellView::Text(now),
        CellView::Text(now),
    ]
}

/// The inserts of an import, table by table.
pub struct MigrationInserts {
    pub folders: Vec<Row>,
    pub lists: Vec<Row>,
    pub note_groups: Vec<Row>,
    pub notes: Vec<Row>,
    pub templates: Vec<Row>,
}

fn or_zero_value(n: Option<i32>) -> (v: CellValue)
    ensures
        v@ == CellView::Integer(or_zero(n)),
{
    CellValue::Integer(
        match n {
            Some(x) => x as i64,
            None => 0,
        },
    )
}

fn or_text_value(s: &Option<String>, default: &str) -> (v: CellValue)
    ensures
        v@ == CellView::Text(or_text(*s, default@)),
{
    match s {
        Some(x) => text_value(x.as_str()),
        None => text_value(default),
    }
}

fn stamp_value(ms: Option<i64>, now_ms: i64) -> (v: CellValue)
    ensures
        v@ == CellView::Integer(stamp_ms(ms, now_ms)),
{
    let m = match ms {
        Some(x) => x,
        None => 0,
    };
    if timestamp_in_range(m) {
        CellValue::Integer(m)
    } else {
        CellValue::Integer(now_ms)
    }
}

/// The inserts that import `data` at `now` (`now_ms` in UNIX milliseconds),
/// in the order the tables are filled: folders, lists, note groups, notes,
/// templates. Note timestamps are stored as UNIX milliseconds, as the list
/// load reads them.
pub fn list_migrate_from_local(data: &MigrationData, now: &str, now_ms: i64) -> (r: MigrationInserts)
    ensures
        r.folders@.len() == data.folders@.len(),
        forall|i: int|
            0 <= i < data.folders@.len() ==> #[trigger] r.folders@[i]@ == folder_insert(
                data.folders@[i],
                now@,
            ),
        r.lists@.len() == data.lists@.len(),
        forall|i: int|
            0 <= i < data.lists@.len() ==> #[trigger] r.lists@[i]@ == list_insert(data.lists@[i], now@),
        r.note_groups@.len() == data.note_groups@.len(),
        forall|i: int|
            0 <= i < data.note_groups@.len() ==> #[trigger] r.note_groups@[i]@ == group_insert(
                data.note_groups@[i],
                now@,
            ),
        r.notes@.len() == data.notes@.len(),
        forall|i: int|
            0 <= i < data.notes@.len() ==> #[trigger] r.notes@[i]@ == note_insert(data.notes@[i], now_ms),
        r.templates@.len() == data.templates@.len(),
        forall|i: int|
            0 <= i < data.templates@.len() ==> #[trigger] r.templates@[i]@ == template_insert(
                data.templates@[i],
                now@,
            ),
{
    proof {
        reveal_strlit("#000000");
        reveal_strlit("list");
        reveal_strlit("");
        assert(""@ =~= Seq::<char>::empty());
    }
    let mut folders: Vec<Row> = Vec::new();
    for i in 0..data.folders.len()
        invariant
            folders@.len() == i,
            forall|j: int|
                0 <= j < i ==> #[trigger] folders@[j]@ == folder_insert(data.folders@[j], now@),
    {
        let f = &data.folders[i];
        let mut cells: Vec<CellValue> = Vec::new();
        cells.push(text_value(f.id.as_str()));
        cells.push(text_value(f.name.as_str()));
        cells.push(
            flag_value(
                match f.is_pinned {
                    Some(b) => b,
                    None => false,
                },
            ),
        );
        cells.push(or_zero_value(f.sort_order));
        cells.push(text_value(now));
        cells.push(text_value(now));
        let row = Row { cells };
        assert(row@ =~= folder_insert(*f, now@));
        folders.push(row);
    }
    let mut lists: Vec<Row> = Vec::new();
    for i in 0..data.lists.len()
        invariant
            lists@.len() == i,
            ""@ =~= Seq::<char>::empty(),
            forall|j: int| 0 <= j < i ==> #[trigger] lists@[j]@ == list_insert(data.lists@[j], now@),
    {
        let l = &data.lists[i];
        let mut cells: Vec<CellValue> = Vec::new();
        cells.push(text_value(l.id.as_str()));
        cells.push(text_value(l.name.as_str()));
        cells.push(or_text_value(&l.icon, ""));
        cells.push(or_text_value(&l.color, "#000000"));
        cells.push(or_text_value(&l.view_type, "list"));
        cells.push(opt_text_value(&l.folder_id));
        cells.push(
            flag_value(
                match l.is_pinned {
                    Some(b) => b,
                    None => false,
                },
            ),
        );
        cells.push(or_zero_value(l.sort_order));
        cells.push(text_value(now));
        cells.push(text_value(now));
        let row = Row { cells };
        assert(row@ =~= list_insert(*l, now@));
        lists.push(row);
    }
    let mut note_groups: Vec<Row> = Vec::new();
    for i in 0..data.note_groups.len()
        invariant
            note_groups@.len() == i,
            forall|j: int|
                0 <= j < i ==> #[trigger] note_groups@[j]@ == group_insert(
                    data.note_groups@[j],
                    now@,
                ),
    {
        let g = &data.note_groups[i];
        let mut cells: Vec<CellValue> = Vec::new();
        cells.push(text_value(g.id.as_str()));
        cells.push(text_value(g.list_id.as_str()));
        cells.push(text_value(g.name.as_str()));
        cells.push(or_zero_value(g.sort_order));
        cells.push(text_value(now));
        cells.push(text_value(now));
        let row = Row { cells };
        assert(row@ =~= group_insert(*g, now@));
        note_groups.push(row);
    }
    let mut notes: Vec<Row> = Vec::new();
    for i in 0..data.notes.len()
        invariant
            notes@.len() == i,
            ""@ =~= Seq::<char>::empty(),
            forall|j: int| 0 <= j < i ==> #[trigger] notes@[j]@ == note_insert(data.notes@[j], now_ms),
    {
        let n = &data.notes[i];
        let mut cells: Vec<CellValue> = Vec::new();
        cells.push(text_value(n.id.as_str()));
        cells.push(text_value(n.list_id.as_str()));
        cells.push(opt_text_value(&n.group_id));
        cells.push(or_text_value(&n.title, ""));
        cells.push(or_text_value(&n.content, ""));
        cells.push(
            flag_value(
                match n.is_pinned {
                    Some(b) => b,
                    None => false,
                },
            ),
        );
        cells.push(or_zero_value(n.sort_order));
        cells.push(stamp_value(n.created_at, now_ms));
        cells.push(stamp_value(n.updated_at, now_ms));
        let row = Row { cells };
        assert(row@ =~= note_insert(*n, now_ms));
        notes.push(row);
    }
    let mut templates: Vec<Row> = Vec::new();
    for i in 0..data.templates.len()
        invariant
            templates@.len() == i,
            ""@ =~= Seq::<char>::empty(),
            forall|j: int|
                0 <= j < i ==> #[trigger] templates@[j]@ == template_insert(
                    data.templates@[j],
                    now@,
                ),
    {
        let t = &data.templates[i];
        let mut cells: Vec<CellValue> = Vec::new();
        cells.push(text_value(t.id.as_str()));
        cells.push(text_value(t.name.as_str()));
        cells.push(or_text_value(&t.content, ""));
        cells.push(text_value(now));
        cells.push(text_value(now));
        let row = Row { cells };
        assert(row@ =~= template_insert(*t, now@));
        templates.push(row);
    }
    MigrationInserts { folders, lists, note_groups, notes, templates }
}

// ---------------------------------------------------------------------------
// Running the import twice
// ---------------------------------------------------------------------------

/// The key of a row: the text of its first value.
pub open spec fn row_key(row: Seq<CellView>) -> Seq<char> {
    match row[0] {
        CellView::Text(s) => s,
        _ => Seq::empty(),
    }
}

/// A table after `INSERT OR IGNORE` of `rows`, one by one: a row whose key
/// is taken is ignored.
pub open spec fn insert_or_ignore(
    table: Map<Seq<char>, Seq<CellView>>,
    rows: Seq<Seq<CellView>>,
) -> Map<Seq<char>, Seq<CellView>>
    decreases rows.len(),
{
    if rows.len() == 0 {
        table
    } else {
        let t = insert_or_ignore(table, rows.drop_last());
        let k = row_key(rows.last());
        if t.dom().contains(k) {
            t
        } else {
            t.insert(k, rows.last())
        }
    }
}

proof fn lemma_inserted_keys(table: Map<Seq<char>, Seq<CellView>>, rows: Seq<Seq<CellView>>)
    ensures
        forall|i: int|
            0 <= i < rows.len() ==> insert_or_ignore(table, rows).dom().contains(
                #[trigger] row_key(rows[i]),
            ),
    decreases rows.len(),
{
    if rows.len() > 0 {
        lemma_inserted_keys(table, rows.drop_last());
        assert forall|i: int| 0 <= i < rows.len() implies insert_or_ignore(
            table,
            rows,
        ).dom().contains(#[trigger] row_key(rows[i])) by {
            if i < rows.len() - 1 {
                assert(rows.drop_last()[i] == rows[i]);
            }
        }
    }
}

proof fn lemma_ignore_present(table: Map<Seq<char>, Seq<CellView>>, rows: Seq<Seq<CellView>>)
    requires
        forall|i: int| 0 <= i < rows.len() ==> table.dom().contains(#[trigger] row_key(rows[i])),
    ensures
        insert_or_ignore(table, rows) == table,
    decreases rows.len(),
{
    if rows.len() > 0 {
        assert forall|i: int| 0 <= i < rows.drop_last().len() implies table.dom().contains(
            #[trigger] row_key(rows.drop_last()[i]),
        ) by {
            assert(rows.drop_last()[i] == rows[i]);
        }
        lemma_ignore_present(table, rows.drop_last());
        assert(table.dom().contains(row_key(rows[rows.len() - 1])));
    }
}

/// Running an import again, even at another time, leaves every table as the
/// first run left it: the second run's rows have keys the first run already
/// holds, and INSERT OR IGNORE skips them.
pub proof fn law_import_idempotent(
    table: Map<Seq<char>, Seq<CellView>>,
    first: Seq<Seq<CellView>>,
    again: Seq<Seq<CellView>>,
)
    requires
        again.len() == first.len(),
        forall|i: int| 0 <= i < first.len() ==> #[trigger] row_key(again[i]) == row_key(first[i]),
    ensures
        insert_or_ignore(insert_or_ignore(table, first), again) == insert_or_ignore(table, first),
{
    lemma_inserted_keys(table, first);
    let t = insert_or_ignore(table, first);
    assert forall|i: int| 0 <= i < again.len() implies t.dom().contains(
        #[trigger] row_key(again[i]),
    ) by {
        assert(row_key(again[i]) == row_key(first[i]));
    }
    lemma_ignore_present(t, again);
}

/// The rows of an import are keyed by the ids of the data, whatever the time
/// of the run.
pub proof fn law_import_keys(f: MigrationFolder, l: MigrationList, g: MigrationNoteGroup, n: MigrationNote, t: MigrationTemplate, now1: Seq<char>, now2: Seq<char>, ms1: i64, ms2: i64)
    ensures
        row_key(folder_insert(f, now1)) == f.id@,
        row_key(folder_insert(f, now1)) == row_key(folder_insert(f, now2)),
        row_key(list_insert(l, now1)) == l.id@,
        row_key(list_insert(l, now1)) == row_key(list_insert(l, now2)),
        row_key(group_insert(g, now1)) == g.id@,
        row_key(group_insert(g, now1)) == row_key(group_insert(g, now2)),
        row_key(note_insert(n, ms1)) == n.id@,
        row_key(note_insert(n, ms1)) == row_key(note_insert(n, ms2)),
        row_key(template_insert(t, now1)) == t.id@,
        row_key(template_insert(t, now1)) == row_key(template_insert(t, now2)),
{
}

/// What the list load reads of an imported note: the note as it was kept,
/// missing texts empty, and its timestamps in UNIX milliseconds (the import
/// time for one chrono's calendar does not hold). It needs a group id that is
/// not blank (a blank one reads back as none).
pub proof fn law_imported_note_reads_back(n: MigrationNote, now_ms: i64)
    requires
        n.group_id matches Some(g) ==> !all_white(g@),
    ensures
        read_note(note_insert(n, now_ms)) == (ListNoteView {
            id: n.id@,
            list_id: n.list_id@,
            group_id: n.group_id.deep_view(),
            title: or_text(n.title, Seq::empty()),
            content: or_text(n.content, Seq::empty()),
            is_pinned: or_false(n.is_pinned),
            sort_order: match n.sort_order {
                Some(x) => x,
                None => 0,
            },
            created_at: stamp_ms(n.created_at, now_ms),
            updated_at: stamp_ms(n.updated_at, now_ms),
        }),
{
}

/// The columns an imported folder is inserted into, in order.
pub open spec fn folder_import_columns() -> Seq<Seq<char>> {
    seq!["id"@, "name"@, "is_pinned"@, "sort_order"@, "created_at"@, "updated_at"@]
}

proof fn reveal_folder_import_columns()
    ensures
        folder_import_columns() == seq![seq!['i', 'd'], seq!['n', 'a', 'm', 'e'], seq!['i', 's', '_', 'p', 'i', 'n', 'n', 'e', 'd'], seq!['s', 'o', 'r', 't', '_', 'o', 'r', 'd', 'e', 'r'], seq!['c', 'r', 'e', 'a', 't', 'e', 'd', '_', 'a', 't'], seq!['u', 'p', 'd', 'a', 't', 'e', 'd', '_', 'a', 't']],
{
    reveal_strlit("id");
    reveal_strlit("name");
    reveal_strlit("is_pinned");
    reveal_strlit("sort_order");
    reveal_strlit("created_at");
    reveal_strlit("updated_at");
    assert(folder_import_columns() =~~= seq![seq!['i', 'd'], seq!['n', 'a', 'm', 'e'], seq!['i', 's', '_', 'p', 'i', 'n', 'n', 'e', 'd'], seq!['s', 'o', 'r', 't', '_', 'o', 'r', 'd', 'e', 'r'], seq!['c', 'r', 'e', 'a', 't', 'e', 'd', '_', 'a', 't'], seq!['u', 'p', 'd', 'a', 't', 'e', 'd', '_', 'a', 't']]);
}

/// The import of a folder names the columns `folder_import_columns` lists,
/// in that order, binding `?k` to the `k`-th.
pub proof fn law_folder_import_names_the_columns()
    ensures
        IMPORT_FOLDER@ == "INSERT OR IGNORE INTO list_folders ("@ + comma_list(folder_import_columns())
            + ") VALUES (?1, ?2, ?3, ?4, ?5, ?6)"@,
{
    reveal_with_fuel(comma_list, 8);
    reveal_strlit("INSERT OR IGNORE INTO list_folders (id, name, is_pinned, sort_order, created_at, updated_at) VALUES (?1, ?2, ?3, ?4, ?5, ?6)");
    reveal_strlit("INSERT OR IGNORE INTO list_folders (");
    reveal_strlit(") VALUES (?1, ?2, ?3, ?4, ?5, ?6)");
    reveal_strlit(", ");
    reveal_folder_import_columns();
    assert(IMPORT_FOLDER@ =~= "INSERT OR IGNORE INTO list_folders ("@ + comma_list(folder_import_columns())
        + ") VALUES (?1, ?2, ?3, ?4, ?5, ?6)"@);
}

/// The columns an imported list is inserted into, in order.
pub open spec fn list_import_columns() -> Seq<Seq<char>> {
    seq!["id"@, "name"@, "icon"@, "color"@, "view_type"@, "folder_id"@, "is_pinned"@, "sort_order"@, "created_at"@, "updated_at"@]
}

proof fn reveal_list_import_columns()
    ensures
        list_import_columns() == seq![seq!['i', 'd'], seq!['n', 'a', 'm', 'e'], seq!['i', 'c', 'o', 'n'], seq!['c', 'o', 'l', 'o', 'r'], seq!['v', 'i', 'e', 'w', '_', 't', 'y', 'p', 'e'], seq!['f', 'o', 'l', 'd', 'e', 'r', '_', 'i', 'd'], seq!['i', 's', '_', 'p', 'i', 'n', 'n', 'e', 'd'], seq!['s', 'o', 'r', 't', '_', 'o', 'r', 'd', 'e', 'r'], seq!['c', 'r', 'e', 'a', 't', 'e', 'd', '_', 'a', 't'], seq!['u', 'p', 'd', 'a', 't', 'e', 'd', '_', 'a', 't']],
{
    reveal_strlit("id");
    reveal_strlit("name");
    reveal_strlit("icon");
    reveal_strlit("color");
    reveal_strlit("view_type");
    reveal_strlit("folder_id");
    reveal_strlit("is_pinned");
    reveal_strlit("sort_order");
    reveal_strlit("created_at");
    reveal_strlit("updated_at");
    assert(list_import_columns() =~~= seq![seq!['i', 'd'], seq!['n', 'a', 'm', 'e'], seq!['i', 'c', 'o', 'n'], seq!['c', 'o', 'l', 'o', 'r'], seq!['v', 'i', 'e', 'w', '_', 't', 'y', 'p', 'e'], seq!['f', 'o', 'l', 'd', 'e', 'r', '_', 'i', 'd'], seq!['i', 's', '_', 'p', 'i', 'n', 'n', 'e', 'd'], seq!['s', 'o', 'r', 't', '_', 'o', 'r', 'd', 'e', 'r'], seq!['c', 'r', 'e', 'a', 't', 'e', 'd', '_', 'a', 't'], seq!['u', 'p', 'd', 'a', 't', 'e', 'd', '_', 'a', 't']]);
}

/// The import of a list names the columns `list_import_columns` lists,
/// in that order, binding `?k` to the `k`-th.
pub proof fn law_list_import_names_the_columns()
    ensures
        IMPORT_LIST@ == "INSERT OR IGNORE INTO list_lists ("@ + comma_list(list_import_columns())
            + ") VALUES (?1, ?2, ?3, ?4, ?5, ?6, ?7, ?8, ?9, ?10)"@,
{
    reveal_with_fuel(comma_list, 12);
    reveal_strlit("INSERT OR IGNORE INTO list_lists (id, name, icon, color, view_type, folder_id, is_pinned, sort_order, created_at, updated_at) VALUES (?1, ?2, ?3, ?4, ?5, ?6, ?7, ?8, ?9, ?10)");
    reveal_strlit("INSERT OR IGNORE INTO list_lists (");
    reveal_strlit(") VALUES (?1, ?2, ?3, ?4, ?5, ?6, ?7, ?8, ?9, ?10)");
    reveal_strlit(", ");
    reveal_list_import_columns();
    assert(IMPORT_LIST@ =~= "INSERT OR IGNORE INTO list_lists ("@ + comma_list(list_import_columns())
        + ") VALUES (?1, ?2, ?3, ?4, ?5, ?6, ?7, ?8, ?9, ?10)"@);
}

/// The columns an imported note is inserted into, in order.
pub open spec fn note_import_columns() -> Seq<Seq<char>> {
    seq!["id"@, "list_id"@, "group_id"@, "title"@, "content"@, "is_pinned"@, "sort_order"@, "created_at"@, "updated_at"@]
}

proof fn reveal_note_import_columns()
    ensures
        note_import_columns() == seq![seq!['i', 'd'], seq!['l', 'i', 's', 't', '_', 'i', 'd'], seq!['g', 'r', 'o', 'u', 'p', '_', 'i', 'd'], seq!['t', 'i', 't', 'l', 'e'], seq!['c', 'o', 'n', 't', 'e', 'n', 't'], seq!['i', 's', '_', 'p', 'i', 'n', 'n', 'e', 'd'], seq!['s', 'o', 'r', 't', '_', 'o', 'r', 'd', 'e', 'r'], seq!['c', 'r', 'e', 'a', 't', 'e', 'd', '_', 'a', 't'], seq!['u', 'p', 'd', 'a', 't', 'e', 'd', '_', 'a', 't']],
{
    reveal_strlit("id");
    reveal_strlit("list_id");
    reveal_strlit("group_id");
    reveal_strlit("title");
    reveal_strlit("content");
    reveal_strlit("is_pinned");
    reveal_strlit("sort_order");
    reveal_strlit("created_at");
    reveal_strlit("updated_at");
    assert(note_import_columns() =~~= seq![seq!['i', 'd'], seq!['l', 'i', 's', 't', '_', 'i', 'd'], seq!['g', 'r', 'o', 'u', 'p', '_', 'i', 'd'], seq!['t', 'i', 't', 'l', 'e'], seq!['c', 'o', 'n', 't', 'e', 'n', 't'], seq!['i', 's', '_', 'p', 'i', 'n', 'n', 'e', 'd'], seq!['s', 'o', 'r', 't', '_', 'o', 'r', 'd', 'e', 'r'], seq!['c', 'r', 'e', 'a', 't', 'e', 'd', '_', 'a', 't'], seq!['u', 'p', 'd', 'a', 't', 'e', 'd', '_', 'a', 't']]);
}

/// The import of a note names the columns `note_import_columns` lists,
/// in that order, binding `?k` to the `k`-th.
pub proof fn law_note_import_names_the_columns()
    ensures
        IMPORT_NOTE@ == "INSERT OR IGNORE INTO list_notes ("@ + comma_list(note_import_columns())
            + ") VALUES (?1, ?2, ?3, ?4, ?5, ?6, ?7, ?8, ?9)"@,
{
    reveal_with_fuel(comma_list, 11);
    reveal_strlit("INSERT OR IGNORE INTO list_notes (id, list_id, group_id, title, content, is_pinned, sort_order, created_at, updated_at) VALUES (?1, ?2, ?3, ?4, ?5, ?6, ?7, ?8, ?9)");
    reveal_strlit("INSERT OR IGNORE INTO list_notes (");
    reveal_strlit(") VALUES (?1, ?2, ?3, ?4, ?5, ?6, ?7, ?8, ?9)");
    reveal_strlit(", ");
    reveal_note_import_columns();
    assert(IMPORT_NOTE@ =~= "INSERT OR IGNORE INTO list_notes ("@ + comma_list(note_import_columns())
        + ") VALUES (?1, ?2, ?3, ?4, ?5, ?6, ?7, ?8, ?9)"@);
}

/// An imported folder, list or note keeps its pin and its place: the
/// `is_pinned` column is 1 exactly when the stored item was pinned
/// (`Some(true)`), else 0, and `sort_order` is its stored order, 0 when it
/// had none.
pub proof fn law_import_keeps_pins_and_order(
    f: MigrationFolder,
    l: MigrationList,
    n: MigrationNote,
    now: Seq<char>,
    now_ms: i64,
)
    ensures
        folder_import_columns()[2] == "is_pinned"@ && folder_insert(f, now)[2] == CellView::Integer(
            if f.is_pinned == Some(true) { 1 } else { 0 },
        ),
        folder_import_columns()[3] == "sort_order"@ && folder_insert(f, now)[3] == CellView::Integer(
            match f.sort_order { Some(x) => x as i64, None => 0 },
        ),
        list_import_columns()[6] == "is_pinned"@ && list_insert(l, now)[6] == CellView::Integer(
            if l.is_pinned == Some(true) { 1 } else { 0 },
        ),
        list_import_columns()[7] == "sort_order"@ && list_insert(l, now)[7] == CellView::Integer(
            match l.sort_order { Some(x) => x as i64, None => 0 },
        ),
        note_import_columns()[5] == "is_pinned"@ && note_insert(n, now_ms)[5] == CellView::Integer(
            if n.is_pinned == Some(true) { 1 } else { 0 },
        ),
        note_import_columns()[6] == "sort_order"@ && note_insert(n, now_ms)[6] == CellView::Integer(
            match n.sort_order { Some(x) => x as i64, None => 0 },
        ),
{
    reveal_folder_import_columns();
    reveal_list_import_columns();
    reveal_note_import_columns();
    reveal_strlit("is_pinned");
    reveal_strlit("sort_order");
}

/// What the import writes of each kept item, column by column of the
/// import's column list: its own values, a missing text as its default (an
/// empty icon, title, content; a black colour; a plain list view), a missing
/// pin as unpinned and a missing order as 0, a folder, list, group and
/// template stamped with the import time, and a note with its own times.
pub proof fn law_import_rows(
    f: MigrationFolder,
    l: MigrationList,
    g: MigrationNoteGroup,
    n: MigrationNote,
    t: MigrationTemplate,
    now: Seq<char>,
    now_ms: i64,
)
    ensures
        folder_import_columns() == seq!["id"@, "name"@, "is_pinned"@, "sort_order"@, "created_at"@, "updated_at"@],
        folder_insert(f, now) == seq![
            CellView::Text(f.id@),
            CellView::Text(f.name@),
            CellView::Integer(if f.is_pinned == Some(true) { 1 } else { 0 }),
            CellView::Integer(match f.sort_order { Some(x) => x as i64, None => 0 }),
            CellView::Text(now),
            CellView::Text(now),
        ],
        list_import_columns() == seq!["id"@, "name"@, "icon"@, "color"@, "view_type"@, "folder_id"@, "is_pinned"@, "sort_order"@, "created_at"@, "updated_at"@],
        list_insert(l, now) == seq![
            CellView::Text(l.id@),
            CellView::Text(l.name@),
            CellView::Text(match l.icon { Some(x) => x@, None => Seq::empty() }),
            CellView::Text(match l.color { Some(x) => x@, None => "#000000"@ }),
            CellView::Text(match l.view_type { Some(x) => x@, None => "list"@ }),
            match l.folder_id { Some(x) => CellView::Text(x@), None => CellView::Null },
            CellView::Integer(if l.is_pinned == Some(true) { 1 } else { 0 }),
            CellView::Integer(match l.sort_order { Some(x) => x as i64, None => 0 }),
            CellView::Text(now),
            CellView::Text(now),
        ],
        group_insert(g, now) == seq![
            CellView::Text(g.id@),
            CellView::Text(g.list_id@),
            CellView::Text(g.name@),
            CellView::Integer(match g.sort_order { Some(x) => x as i64, None => 0 }),
            CellView::Text(now),
            CellView::Text(now),
        ],
        note_import_columns() == seq!["id"@, "list_id"@, "group_id"@, "title"@, "content"@, "is_pinned"@, "sort_order"@, "created_at"@, "updated_at"@],
        note_insert(n, now_ms) == seq![
            CellView::Text(n.id@),
            CellView::Text(n.list_id@),
            match n.group_id { Some(x) => CellView::Text(x@), None => CellView::Null },
            CellView::Text(match n.title { Some(x) => x@, None => Seq::empty() }),
            CellView::Text(match n.content { Some(x) => x@, None => Seq::empty() }),
            CellView::Integer(if n.is_pinned == Some(true) { 1 } else { 0 }),
            CellView::Integer(match n.sort_order { Some(x) => x as i64, None => 0 }),
            CellView::Integer(stamp_ms(n.created_at, now_ms)),
            CellView::Integer(stamp_ms(n.updated_at, now_ms)),
        ],
        template_insert(t, now) == seq![
            CellView::Text(t.id@),
            CellView::Text(t.name@),
            CellView::Text(match t.content { Some(x) => x@, None => Seq::empty() }),
            CellView::Text(now),
            CellView::Text(now),
        ],
{
    assert(folder_import_columns() =~= seq!["id"@, "name"@, "is_pinned"@, "sort_order"@, "created_at"@, "updated_at"@]);
    assert(list_import_columns() =~= seq!["id"@, "name"@, "icon"@, "color"@, "view_type"@, "folder_id"@, "is_pinned"@, "sort_order"@, "created_at"@, "updated_at"@]);
    assert(note_import_columns() =~= seq!["id"@, "list_id"@, "group_id"@, "title"@, "content"@, "is_pinned"@, "sort_order"@, "created_at"@, "updated_at"@]);
    assert(folder_insert(f, now) =~= seq![
        CellView::Text(f.id@),
        CellView::Text(f.name@),
        CellView::Integer(if f.is_pinned == Some(true) { 1 } else { 0 }),
        CellView::Integer(match f.sort_order { Some(x) => x as i64, None => 0 }),
        CellView::Text(now),
        CellView::Text(now),
    ]);
    assert(list_insert(l, now) =~= seq![
        CellView::Text(l.id@),
        CellView::Text(l.name@),
        CellView::Text(match l.icon { Some(x) => x@, None => Seq::empty() }),
        CellView::Text(match l.color { Some(x) => x@, None => "#000000"@ }),
        CellView::Text(match l.view_type { Some(x) => x@, None => "list"@ }),
        match l.folder_id { Some(x) => CellView::Text(x@), None => CellView::Null },
        CellView::Integer(if l.is_pinned == Some(true) { 1 } else { 0 }),
        CellView::Integer(match l.sort_order { Some(x) => x as i64, None => 0 }),
        CellView::Text(now),
        CellView::Text(now),
    ]);
    assert(note_insert(n, now_ms) =~= seq![
        CellView::Text(n.id@),
        CellView::Text(n.list_id@),
        match n.group_id { Some(x) => CellView::Text(x@), None => CellView::Null },
        CellView::Text(match n.title { Some(x) => x@, None => Seq::empty() }),
        CellView::Text(match n.content { Some(x) => x@, None => Seq::empty() }),
        CellView::Integer(if n.is_pinned == Some(true) { 1 } else { 0 }),
        CellView::Integer(match n.sort_order { Some(x) => x as i64, None => 0 }),
        CellView::Integer(stamp_ms(n.created_at, now_ms)),
        CellView::Integer(stamp_ms(n.updated_at, now_ms)),
    ]);
}

} // verus!
